use crate::army_build::{ArmyBuild, ArmyBuildView, DEFAULT_FUNDS};
use crate::ca_game::{
    army_setup_ext, army_setups_folder_under, ca_game_army_setups_folder_under,
    get_ca_game_army_setup_ext, get_ca_game_army_setups_folder, get_ca_game_from_folder_name,
    game_of_folder_name, get_ca_game_subfolder, no_home_message, publisher_folder, subfolder,
    CaGame,
};
use crate::catalog::names_distinct;
use crate::factions::{
    classify_faction, classify_vs_faction, faction_name, get_faction_names, parse_faction,
    parse_vs_faction,
};
use crate::paths::{
    file_extension, file_stem, home_dir, join_path, joined_path, lemma_last_index_of,
    split_file_name,
};
use crate::text::{
    contains, first_miss, first_miss_from, has_substring, lemma_first_miss_from, same_text,
};
use crate::ymd_hms_dash_format::Timestamp;
use vstd::prelude::*;
use vstd::string::{StrSliceExecFns, StringExecFns};

verus! {

/// What a path was on disk when it was looked at.
#[derive(Clone, Copy, Debug, PartialEq, Eq, Structural)]
pub enum PathKind {
    Missing,
    File,
    Directory,
}

/// One entry of a folder, as it was read from disk.
#[derive(Debug)]
pub struct FolderEntry {
    /// The entry's full path.
    pub path: String,
    /// The last component of the path.
    pub file_name: String,
    /// Whether the entry itself is a regular file.
    pub is_file: bool,
    /// When the file was made, where the file system could tell.
    pub created_on: Option<Timestamp>,
}

/// A folder as it was read from disk: what stands at its path, and, for a
/// folder, its entries in the order in which they were read.
#[derive(Debug)]
pub struct FolderListing {
    pub kind: PathKind,
    pub entries: Vec<FolderEntry>,
}

/// Why a folder cannot be used.
#[derive(Debug)]
pub enum FolderError {
    DoesNotExist,
    NotADirectory,
    NoQualifyingFiles,
    MissingRequiredPathComponent(String),
}

/// The value of a `FolderError`.
pub enum FolderErrorView {
    DoesNotExist,
    NotADirectory,
    NoQualifyingFiles,
    MissingRequiredPathComponent(Seq<char>),
}

impl View for FolderError {
    type V = FolderErrorView;

    open spec fn view(&self) -> FolderErrorView {
        match self {
            FolderError::DoesNotExist => FolderErrorView::DoesNotExist,
            FolderError::NotADirectory => FolderErrorView::NotADirectory,
            FolderError::NoQualifyingFiles => FolderErrorView::NoQualifyingFiles,
            FolderError::MissingRequiredPathComponent(c) => {
                FolderErrorView::MissingRequiredPathComponent(c@)
            },
        }
    }
}

/// The outcome of a check, with the error as its value.
pub open spec fn outcome(r: Result<(), FolderError>) -> Result<(), FolderErrorView> {
    match r {
        Ok(()) => Ok(()),
        Err(e) => Err(e@),
    }
}

/// The words in which a `FolderError` is told to the user.
pub open spec fn error_message(e: FolderErrorView) -> Seq<char> {
    match e {
        FolderErrorView::DoesNotExist => "Dat path dont even exist!!"@,
        FolderErrorView::NotADirectory => "Dats a file not a folder!!"@,
        FolderErrorView::NoQualifyingFiles => "The folder got no '.army_setup' files"@,
        FolderErrorView::MissingRequiredPathComponent(c) => "Path is missing component '"@ + c
            + "'"@,
    }
}

/// The message of an outcome: that of its error, and none for success.
pub open spec fn outcome_message(r: Result<(), FolderErrorView>) -> Seq<char> {
    match r {
        Ok(()) => Seq::empty(),
        Err(e) => error_message(e),
    }
}

impl FolderError {
    /// The words in which the error is told to the user.
    pub fn message(&self) -> (r: String)
        ensures
            r@ == error_message(self@),
    {
        match self {
            FolderError::DoesNotExist => String::from_str("Dat path dont even exist!!"),
            FolderError::NotADirectory => String::from_str("Dats a file not a folder!!"),
            FolderError::NoQualifyingFiles => String::from_str(
                "The folder got no '.army_setup' files",
            ),
            FolderError::MissingRequiredPathComponent(c) => {
                let mut r = String::from_str("Path is missing component '");
                r.append(c.as_str());
                r.append("'");
                r
            },
        }
    }
}

/// Whether a folder entry is an army setup file: a regular file whose name
/// has a stem that is not empty and does not begin with a dot, and has the
/// given extension.
pub open spec fn is_army_setup(entry: FolderEntry, extension: Seq<char>) -> bool {
    &&& entry.is_file
    &&& file_stem(entry.file_name@).len() > 0
    &&& file_stem(entry.file_name@)[0] != '.'
    &&& file_extension(entry.file_name@) == Some(extension)
}

/// Whether a folder entry is an army setup file with the given extension.
pub fn is_army_setup_file(file: &FolderEntry, extension: &str) -> (r: bool)
    ensures
        r == is_army_setup(*file, extension@),
{
    if !file.is_file {
        return false;
    }
    let (stem, ext) = split_file_name(file.file_name.as_str());
    if stem.as_str().unicode_len() == 0 {
        return false;
    }
    if stem.as_str().get_char(0) == '.' {
        return false;
    }
    match ext {
        None => false,
        Some(e) => same_text(e.as_str(), extension),
    }
}

/// Whether a folder can be loaded from: it must exist, be a folder, and hold
/// at least one army setup file.
pub open spec fn load_folder_outcome(folder: FolderListing, extension: Seq<char>) -> Result<
    (),
    FolderErrorView,
> {
    match folder.kind {
        PathKind::Missing => Err(FolderErrorView::DoesNotExist),
        PathKind::File => Err(FolderErrorView::NotADirectory),
        PathKind::Directory => {
            if exists|i: int|
                0 <= i < folder.entries@.len() && is_army_setup(
                    #[trigger] folder.entries@[i],
                    extension,
                ) {
                Ok(())
            } else {
                Err(FolderErrorView::NoQualifyingFiles)
            }
        },
    }
}

/// Checks that a folder can be loaded from, and says what is wrong where
/// it cannot.
pub fn validate_load_folder(folder: &FolderListing, extension: &str) -> (r: Result<
    (),
    FolderError,
>)
    ensures
        outcome(r) == load_folder_outcome(*folder, extension@),
{
    match folder.kind {
        PathKind::Missing => {
            return Err(FolderError::DoesNotExist);
        },
        PathKind::File => {
            return Err(FolderError::NotADirectory);
        },
        PathKind::Directory => {},
    }
    let mut i: usize = 0;
    while i < folder.entries.len()
        invariant
            i <= folder.entries.len(),
            folder.kind == PathKind::Directory,
            forall|j: int| 0 <= j < i ==> !is_army_setup(#[trigger] folder.entries@[j], extension@),
        decreases folder.entries.len() - i,
    {
        if is_army_setup_file(&folder.entries[i], extension) {
            assert(is_army_setup(folder.entries@[i as int], extension@));
            return Ok(());
        }
        i += 1;
    }
    Err(FolderError::NoQualifyingFiles)
}

/// The characters of each text of a list.
pub open spec fn texts(parts: Seq<&str>) -> Seq<Seq<char>> {
    parts.map_values(|s: &str| s@)
}

/// Whether a folder can be inserted into: it must exist, be a folder, and
/// its path must hold each of the required parts somewhere in its text. The
/// first part that it lacks is named.
pub open spec fn insert_folder_outcome(
    kind: PathKind,
    folder_path: Seq<char>,
    required: Seq<Seq<char>>,
) -> Result<(), FolderErrorView> {
    match kind {
        PathKind::Missing => Err(FolderErrorView::DoesNotExist),
        PathKind::File => Err(FolderErrorView::NotADirectory),
        PathKind::Directory => match first_miss(folder_path, required) {
            Some(k) => Err(FolderErrorView::MissingRequiredPathComponent(required[k])),
            None => Ok(()),
        },
    }
}

/// A folder is fit to insert into exactly when a folder stands at its path
/// and its path holds every required part; a folder whose path lacks a part
/// is refused for a part that it lacks.
pub proof fn lemma_insert_folder_outcome(
    kind: PathKind,
    folder_path: Seq<char>,
    required: Seq<Seq<char>>,
)
    ensures
        insert_folder_outcome(kind, folder_path, required) is Ok <==> kind == PathKind::Directory
            && forall|k: int|
            0 <= k < required.len() ==> has_substring(folder_path, #[trigger] required[k]),
        insert_folder_outcome(kind, folder_path, required) matches Err(
            FolderErrorView::MissingRequiredPathComponent(part),
        ) ==> kind == PathKind::Directory && required.contains(part) && !has_substring(
            folder_path,
            part,
        ),
{
    lemma_first_miss_from(folder_path, required, 0);
}

/// Checks that a folder can be inserted into, given what stands at its
/// path, and says what is wrong where it cannot.
pub fn validate_insert_folder(
    folder_path: &str,
    kind: PathKind,
    required_path_components: &[&str],
) -> (r: Result<(), FolderError>)
    ensures
        outcome(r) == insert_folder_outcome(kind, folder_path@, texts(required_path_components@)),
{
    match kind {
        PathKind::Missing => {
            return Err(FolderError::DoesNotExist);
        },
        PathKind::File => {
            return Err(FolderError::NotADirectory);
        },
        PathKind::Directory => {},
    }
    let ghost required = texts(required_path_components@);
    let mut i: usize = 0;
    while i < required_path_components.len()
        invariant
            i <= required_path_components.len(),
            kind == PathKind::Directory,
            required == texts(required_path_components@),
            first_miss(folder_path@, required) == first_miss_from(folder_path@, required, i as int),
        decreases required_path_components.len() - i,
    {
        let rpc = required_path_components[i];
        assert(required[i as int] == rpc@);
        if !contains(folder_path, rpc) {
            return Err(FolderError::MissingRequiredPathComponent(String::from_str(rpc)));
        }
        i += 1;
    }
    Ok(())
}

/// The folder of this program below a user's home folder.
pub open spec fn owaagh_folder() -> Seq<char> {
    "AppData\\Roaming\\WarbossWaaghit"@
}

/// The name of the folder that holds army setups.
pub open spec fn army_setups_name() -> Seq<char> {
    "army_setups"@
}

/// The folder in which this program keeps a game's army setups, below a
/// given home folder.
pub open spec fn owaagh_army_setups_dir_under(home: Seq<char>, game: CaGame) -> Seq<char> {
    joined_path(joined_path(joined_path(home, owaagh_folder()), subfolder(game)), army_setups_name())
}

/// The folder in which this program keeps a game's army setups, below a
/// given home folder.
pub fn owaagh_army_setups_dir_in(home: &str, game: &CaGame) -> (r: String)
    ensures
        r@ == owaagh_army_setups_dir_under(home@, *game),
{
    let game_subdir = get_ca_game_subfolder(game);
    let p = join_path(home, "AppData\\Roaming\\WarbossWaaghit");
    let p = join_path(p.as_str(), game_subdir.as_str());
    join_path(p.as_str(), "army_setups")
}

/// The folder in which this program keeps a game's army setups, below the
/// home folder that the environment names; an error where it names none.
/// The folder is named, not made.
pub fn get_owaagh_army_setups_dir(game: &CaGame) -> (r: Result<String, String>)
    ensures
        match r {
            Ok(p) => exists|home: Seq<char>|
                p@ == #[trigger] owaagh_army_setups_dir_under(home, *game),
            Err(e) => e@ == no_home_message(),
        },
{
    match home_dir() {
        Some(home) => {
            let p = owaagh_army_setups_dir_in(home.as_str(), game);
            assert(p@ == owaagh_army_setups_dir_under(home@, *game));
            Ok(p)
        },
        None => Err(String::from_str("dirs::home_dir() None")),
    }
}

/// The folder of the setups that come with the program, below a game's own
/// folder of army setups.
pub open spec fn tmp_default_army_setups_dir_under(home: Seq<char>, game: CaGame) -> Seq<char> {
    joined_path(army_setups_folder_under(home, game), army_setups_name())
}

/// The folder of the setups that come with the program, below a game's own
/// folder of army setups under a given home folder.
pub fn tmp_default_army_setups_dir_in(home: &str, game: &CaGame) -> (r: String)
    ensures
        r@ == tmp_default_army_setups_dir_under(home@, *game),
{
    let game_subdir = ca_game_army_setups_folder_under(home, *game);
    join_path(game_subdir.as_str(), "army_setups")
}

/// The folder of the setups that come with the program, below the home
/// folder that the environment names; an error where it names none. The
/// folder is named, not made.
pub fn get_tmp_default_army_setups_dir(game: &CaGame) -> (r: Result<String, String>)
    ensures
        match r {
            Ok(p) => exists|home: Seq<char>|
                p@ == #[trigger] tmp_default_army_setups_dir_under(home, *game),
            Err(e) => e@ == no_home_message(),
        },
{
    match home_dir() {
        Some(home) => {
            let p = tmp_default_army_setups_dir_in(home.as_str(), game);
            assert(p@ == tmp_default_army_setups_dir_under(home@, *game));
            Ok(p)
        },
        None => Err(String::from_str("dirs::home_dir() None")),
    }
}

/// A folder that the user has named, with what was last found wrong with it.
#[derive(Debug)]
pub struct ArmySetupsFolder {
    pub folder_string: String,
    /// The message of the last check, empty where it found nothing wrong.
    pub folder_error: String,
    pub ca_game: CaGame,
}

impl Clone for ArmySetupsFolder {
    fn clone(&self) -> (r: Self)
        ensures
            r.folder_string@ == self.folder_string@,
            r.folder_error@ == self.folder_error@,
            r.ca_game == self.ca_game,
    {
        ArmySetupsFolder {
            folder_string: self.folder_string.clone(),
            folder_error: self.folder_error.clone(),
            ca_game: self.ca_game,
        }
    }
}

/// The parts that the path of this program's own folder of army setups
/// must hold.
pub open spec fn owaagh_appdata_parts() -> Seq<Seq<char>> {
    seq![owaagh_folder(), army_setups_name()]
}

/// The parts that the path of a folder to insert into must hold.
pub open spec fn insert_folder_parts() -> Seq<Seq<char>> {
    seq![publisher_folder(), army_setups_name()]
}

/// The parts that the path of a game's own folder of army setups must hold,
/// where `default_folder` is that folder as the game makes it.
pub open spec fn ca_game_folder_parts(default_folder: Seq<char>) -> Seq<Seq<char>> {
    seq![publisher_folder(), default_folder]
}

fn message_of(r: Result<(), FolderError>) -> (m: String)
    ensures
        m@ == outcome_message(outcome(r)),
{
    match r {
        Ok(_) => String::new(),
        Err(e) => e.message(),
    }
}

impl ArmySetupsFolder {
    /// A folder by its path, for the game that the path tells of, checked
    /// as a folder to load from against what was read at that path.
    pub fn new(folder: &str, listing: &FolderListing) -> (r: Self)
        ensures
            r.folder_string@ == folder@,
            r.ca_game == game_of_folder_name(folder@),
            r.folder_error@ == outcome_message(
                load_folder_outcome(*listing, army_setup_ext(game_of_folder_name(folder@))),
            ),
    {
        let folder_string = String::from_str(folder);
        let ca_game = get_ca_game_from_folder_name(folder);
        let extension = get_ca_game_army_setup_ext(ca_game);
        let folder_error = message_of(validate_load_folder(listing, extension.as_str()));
        Self { folder_string, folder_error, ca_game }
    }

    /// Whether what stands at the folder's path is a folder.
    pub fn is_folder(&self, kind: PathKind) -> (r: bool)
        ensures
            r == (kind == PathKind::Directory),
    {
        kind == PathKind::Directory
    }

    /// Whether the folder is one of this program's own folders of army
    /// setups.
    pub fn is_owaagh_appdata(&self, kind: PathKind) -> (r: bool)
        ensures
            r == (insert_folder_outcome(kind, self.folder_string@, owaagh_appdata_parts()) is Ok),
    {
        let parts = ["AppData\\Roaming\\WarbossWaaghit", "army_setups"];
        assert(texts(parts@) =~= owaagh_appdata_parts());
        validate_insert_folder(self.folder_string.as_str(), kind, &parts).is_ok()
    }

    /// Whether the folder can be loaded from, given what was read at its
    /// path.
    pub fn is_load_folder(&self, listing: &FolderListing) -> (r: bool)
        ensures
            r == (load_folder_outcome(*listing, army_setup_ext(self.ca_game)) is Ok),
    {
        let extension = get_ca_game_army_setup_ext(self.ca_game);
        validate_load_folder(listing, extension.as_str()).is_ok()
    }

    /// Whether the folder is the game's own folder of army setups, where
    /// `default_folder` is that folder as the game makes it, or the reason
    /// for which it is not known.
    pub fn is_ca_game_folder_given(
        &self,
        kind: PathKind,
        default_folder: &Result<String, String>,
    ) -> (r: bool)
        ensures
            r == match default_folder {
                Ok(p) => insert_folder_outcome(
                    kind,
                    self.folder_string@,
                    ca_game_folder_parts(p@),
                ) is Ok,
                Err(_) => false,
            },
    {
        match default_folder {
            Err(_) => false,
            Ok(subdir_str) => {
                let parts = ["AppData\\Roaming\\The Creative Assembly", subdir_str.as_str()];
                assert(texts(parts@) =~= ca_game_folder_parts(subdir_str@));
                validate_insert_folder(self.folder_string.as_str(), kind, &parts).is_ok()
            },
        }
    }

    /// Whether the folder is the game's own folder of army setups below the
    /// home folder that the environment names. It is not where no folder
    /// stands at its path, nor where its path lacks the publisher's folder.
    pub fn is_ca_game_folder(&self, kind: PathKind) -> (r: bool)
        ensures
            r ==> exists|home: Seq<char>|
                insert_folder_outcome(
                    kind,
                    self.folder_string@,
                    ca_game_folder_parts(#[trigger] army_setups_folder_under(home, self.ca_game)),
                ) is Ok,
            kind != PathKind::Directory ==> !r,
            !has_substring(self.folder_string@, publisher_folder()) ==> !r,
    {
        let res_sub_dir = get_ca_game_army_setups_folder(self.ca_game);
        proof {
            if res_sub_dir is Ok {
                let p = res_sub_dir->Ok_0@;
                lemma_insert_folder_outcome(kind, self.folder_string@, ca_game_folder_parts(p));
                assert(ca_game_folder_parts(p)[0] == publisher_folder());
            }
        }
        self.is_ca_game_folder_given(kind, &res_sub_dir)
    }

    /// Checks the folder as one to load from, against what was read at its
    /// path, and notes what the check found.
    pub fn set_load_folder_error(&mut self, listing: &FolderListing)
        ensures
            final(self).folder_string == old(self).folder_string,
            final(self).ca_game == old(self).ca_game,
            final(self).folder_error@ == outcome_message(
                load_folder_outcome(*listing, army_setup_ext(old(self).ca_game)),
            ),
    {
        let extension = get_ca_game_army_setup_ext(self.ca_game);
        self.folder_error = message_of(validate_load_folder(listing, extension.as_str()));
    }

    /// Checks the folder as one to insert into, given what stands at its
    /// path, and notes what the check found.
    pub fn set_insert_folder_error(&mut self, kind: PathKind)
        ensures
            final(self).folder_string == old(self).folder_string,
            final(self).ca_game == old(self).ca_game,
            final(self).folder_error@ == outcome_message(
                insert_folder_outcome(kind, old(self).folder_string@, insert_folder_parts()),
            ),
    {
        let parts = ["AppData\\Roaming\\The Creative Assembly", "army_setups"];
        assert(texts(parts@) =~= insert_folder_parts());
        self.folder_error = message_of(
            validate_insert_folder(self.folder_string.as_str(), kind, &parts),
        );
    }

    /// The folder, beside the program, from which the setups that come with
    /// it are brought in.
    pub fn get_tmp_defaults_folder() -> (r: String)
        ensures
            r@ == "tmp_defaults"@,
    {
        String::from_str("tmp_defaults")
    }

    /// The folder, beside the program, that holds the setups that come with
    /// it.
    pub fn get_defaults_folder() -> (r: String)
        ensures
            r@ == "owaagh_defaults"@,
    {
        String::from_str("owaagh_defaults")
    }
}

/// The build that a folder entry stands for, when read for a game at a
/// given time.
pub open spec fn build_of_entry(entry: FolderEntry, ca_game: CaGame, now: Timestamp) -> ArmyBuildView {
    let stem = file_stem(entry.file_name@);
    ArmyBuildView {
        file: entry.path@,
        file_stem: stem,
        original_file: entry.path@,
        created_on: match entry.created_on {
            Some(t) => t,
            None => now,
        },
        faction: classify_faction(stem),
        vs_faction: classify_vs_faction(stem),
        ca_game,
        game_mod: Seq::empty(),
        created_by: Seq::empty(),
        faction_str: if ca_game == CaGame::Warhammer2 {
            faction_name(classify_faction(stem))
        } else {
            Seq::empty()
        },
        vs_faction_str: if ca_game == CaGame::Warhammer2 {
            faction_name(classify_vs_faction(stem))
        } else {
            Seq::empty()
        },
        win_count: 0,
        loss_count: 0,
        funds: DEFAULT_FUNDS,
        image_files: Seq::empty(),
        notes: Seq::empty(),
    }
}

/// The values of a list of builds.
pub open spec fn build_views(builds: Seq<ArmyBuild>) -> Seq<ArmyBuildView> {
    builds.map_values(|b: ArmyBuild| b@)
}

/// The army setup files among the entries of a folder, in their order.
pub open spec fn army_setup_entries(entries: Seq<FolderEntry>, extension: Seq<char>) -> Seq<
    FolderEntry,
> {
    entries.filter(|e: FolderEntry| is_army_setup(e, extension))
}

/// The builds that a folder holds for a game: one for each army setup file
/// with the game's extension, in the order of the entries; none where the
/// folder is missing or is no folder.
pub open spec fn builds_of_folder(folder: FolderListing, ca_game: CaGame, now: Timestamp) -> Seq<
    ArmyBuildView,
> {
    if folder.kind == PathKind::Directory {
        army_setup_entries(folder.entries@, army_setup_ext(ca_game)).map_values(
            |e: FolderEntry| build_of_entry(e, ca_game, now),
        )
    } else {
        Seq::empty()
    }
}

/// The names under which the builds of a list are shown.
pub open spec fn build_names(builds: Seq<ArmyBuildView>) -> Seq<Seq<char>> {
    builds.map_values(|b: ArmyBuildView| b.file_stem)
}

/// Every build that a scan gives stands for an entry of a folder that is a
/// regular file, has a stem that does not begin with a dot, and has the
/// game's extension.
pub proof fn lemma_scan_only_army_setups(
    folder: FolderListing,
    ca_game: CaGame,
    now: Timestamp,
    i: int,
)
    requires
        0 <= i < builds_of_folder(folder, ca_game, now).len(),
    ensures
        folder.kind == PathKind::Directory,
        exists|j: int|
            0 <= j < folder.entries@.len() && is_army_setup(
                #[trigger] folder.entries@[j],
                army_setup_ext(ca_game),
            ) && builds_of_folder(folder, ca_game, now)[i] == build_of_entry(
                folder.entries@[j],
                ca_game,
                now,
            ),
{
    let pred = |e: FolderEntry| is_army_setup(e, army_setup_ext(ca_game));
    let kept = folder.entries@.filter(pred);
    folder.entries@.lemma_filter_pred(pred, i);
    folder.entries@.lemma_filter_contains_rev(pred, kept[i]);
    let j = choose|j: int| 0 <= j < folder.entries@.len() && folder.entries@[j] == kept[i];
    assert(is_army_setup(folder.entries@[j], army_setup_ext(ca_game)));
}

/// Every army setup file of a folder is given by a scan of it.
pub proof fn lemma_scan_every_army_setup(
    folder: FolderListing,
    ca_game: CaGame,
    now: Timestamp,
    j: int,
)
    requires
        folder.kind == PathKind::Directory,
        0 <= j < folder.entries@.len(),
        is_army_setup(folder.entries@[j], army_setup_ext(ca_game)),
    ensures
        builds_of_folder(folder, ca_game, now).contains(
            build_of_entry(folder.entries@[j], ca_game, now),
        ),
{
    let pred = |e: FolderEntry| is_army_setup(e, army_setup_ext(ca_game));
    let kept = folder.entries@.filter(pred);
    folder.entries@.lemma_filter_contains(pred, j);
    let k = choose|k: int| 0 <= k < kept.len() && kept[k] == folder.entries@[j];
    assert(builds_of_folder(folder, ca_game, now)[k] == build_of_entry(
        folder.entries@[j],
        ca_game,
        now,
    ));
}

/// A folder without an army setup file gives no build, and a scan of it
/// fails: if it is a folder at all, for want of such files.
pub proof fn lemma_scan_without_army_setups(folder: FolderListing, ca_game: CaGame, now: Timestamp)
    requires
        forall|j: int|
            0 <= j < folder.entries@.len() ==> !is_army_setup(
                #[trigger] folder.entries@[j],
                army_setup_ext(ca_game),
            ),
    ensures
        builds_of_folder(folder, ca_game, now).len() == 0,
        load_folder_outcome(folder, army_setup_ext(ca_game)) is Err,
        scan_outcome(folder, ca_game, now) is Err,
        folder.kind == PathKind::Directory ==> scan_outcome(folder, ca_game, now) == Err::<
            Seq<ArmyBuildView>,
            FolderErrorView,
        >(FolderErrorView::NoQualifyingFiles),
{
    if builds_of_folder(folder, ca_game, now).len() > 0 {
        lemma_scan_only_army_setups(folder, ca_game, now, 0);
    }
}

/// A scan fails for a missing path and for a file with the error that says
/// so, and a scan that succeeds gives at least one build.
pub proof fn lemma_scan_outcome(folder: FolderListing, ca_game: CaGame, now: Timestamp)
    ensures
        folder.kind == PathKind::Missing ==> scan_outcome(folder, ca_game, now) == Err::<
            Seq<ArmyBuildView>,
            FolderErrorView,
        >(FolderErrorView::DoesNotExist),
        folder.kind == PathKind::File ==> scan_outcome(folder, ca_game, now) == Err::<
            Seq<ArmyBuildView>,
            FolderErrorView,
        >(FolderErrorView::NotADirectory),
        scan_outcome(folder, ca_game, now) matches Ok(builds) ==> builds.len() > 0
            && folder.kind == PathKind::Directory,
        scan_outcome(folder, ca_game, now) is Err ==> builds_of_folder(folder, ca_game, now).len()
            == 0,
{
    if scan_outcome(folder, ca_game, now) is Err && folder.kind == PathKind::Directory {
        lemma_scan_without_army_setups(folder, ca_game, now);
    }
    if scan_outcome(folder, ca_game, now) is Ok {
        let j = choose|j: int|
            0 <= j < folder.entries@.len() && is_army_setup(
                #[trigger] folder.entries@[j],
                army_setup_ext(ca_game),
            );
        lemma_scan_every_army_setup(folder, ca_game, now, j);
    }
}

/// Whether no two entries of a folder have the same file name, as it is in
/// every folder on disk.
pub open spec fn file_names_distinct(entries: Seq<FolderEntry>) -> bool {
    forall|i: int, j: int|
        0 <= i < j < entries.len() ==> (#[trigger] entries[i]).file_name@
            != (#[trigger] entries[j]).file_name@
}

/// A file name with an extension is its stem, a dot and the extension.
pub proof fn lemma_stem_dot_extension(file_name: Seq<char>)
    requires
        file_extension(file_name) is Some,
    ensures
        file_name == file_stem(file_name) + seq!['.'] + file_extension(file_name)->0,
{
    lemma_last_index_of(file_name, '.');
    assert(file_name =~= file_stem(file_name) + seq!['.'] + file_extension(file_name)->0);
}

/// Whether an entry is an army setup file that stands among the first `n`
/// entries.
spec fn came_from_before(
    entries: Seq<FolderEntry>,
    n: int,
    entry: FolderEntry,
    extension: Seq<char>,
) -> bool {
    exists|j: int|
        0 <= j < n && j < entries.len() && #[trigger] entries[j] == entry && is_army_setup(
            entries[j],
            extension,
        )
}

proof fn lemma_scan_names_distinct_upto(
    entries: Seq<FolderEntry>,
    ca_game: CaGame,
    now: Timestamp,
    n: int,
)
    requires
        file_names_distinct(entries),
        0 <= n <= entries.len(),
    ensures
        names_distinct(
            army_setup_entries(entries.take(n), army_setup_ext(ca_game)).map_values(
                |e: FolderEntry| build_of_entry(e, ca_game, now),
            ),
        ),
        forall|k: int|
            0 <= k < army_setup_entries(entries.take(n), army_setup_ext(ca_game)).len()
                ==> came_from_before(
                entries,
                n,
                #[trigger] army_setup_entries(entries.take(n), army_setup_ext(ca_game))[k],
                army_setup_ext(ca_game),
            ),
    decreases n,
{
    let ext = army_setup_ext(ca_game);
    let pred = |e: FolderEntry| is_army_setup(e, ext);
    let make = |e: FolderEntry| build_of_entry(e, ca_game, now);
    let kept = army_setup_entries(entries.take(n), ext);
    assert(kept == entries.take(n).filter(pred));
    if n == 0 {
        reveal(Seq::filter);
        assert(kept =~= Seq::<FolderEntry>::empty());
    } else {
        lemma_scan_names_distinct_upto(entries, ca_game, now, n - 1);
        lemma_filter_next(entries, pred, n - 1);
        let before = army_setup_entries(entries.take(n - 1), ext);
        assert(before == entries.take(n - 1).filter(pred));
        let last = entries[n - 1];
        assert forall|k: int| 0 <= k < kept.len() implies came_from_before(
            entries,
            n,
            #[trigger] kept[k],
            ext,
        ) by {
            if k < before.len() {
                assert(came_from_before(entries, n - 1, before[k], ext));
                let j = choose|j: int|
                    0 <= j < n - 1 && #[trigger] entries[j] == before[k] && is_army_setup(
                        entries[j],
                        ext,
                    );
                assert(entries[j] == kept[k]);
            } else {
                assert(entries[n - 1] == kept[k]);
            }
        }
        let builds = kept.map_values(make);
        assert forall|a: int, b: int| 0 <= a < b < builds.len() implies #[trigger] builds[a].file_stem
            != #[trigger] builds[b].file_stem by {
            if b < before.len() {
                let earlier = before.map_values(make);
                assert(earlier[a].file_stem != earlier[b].file_stem);
            } else {
                assert(came_from_before(entries, n - 1, before[a], ext));
                let j = choose|j: int|
                    0 <= j < n - 1 && #[trigger] entries[j] == before[a] && is_army_setup(
                        entries[j],
                        ext,
                    );
                lemma_stem_dot_extension(entries[j].file_name@);
                lemma_stem_dot_extension(last.file_name@);
                assert(entries[j].file_name@ != entries[n - 1].file_name@);
            }
        }
    }
}

/// In a folder in which no two entries have the same file name, no two
/// builds of a scan are shown under the same name.
pub proof fn lemma_scan_names_distinct(folder: FolderListing, ca_game: CaGame, now: Timestamp)
    requires
        file_names_distinct(folder.entries@),
    ensures
        names_distinct(builds_of_folder(folder, ca_game, now)),
{
    lemma_scan_names_distinct_upto(folder.entries@, ca_game, now, folder.entries@.len() as int);
    assert(folder.entries@.take(folder.entries@.len() as int) =~= folder.entries@);
}

/// Two scans of the same folder give the same builds under the same names,
/// in the same order; only the time that stands in for a creation time which
/// the file system did not tell can differ.
pub proof fn lemma_scan_repeatable(
    folder: FolderListing,
    ca_game: CaGame,
    first: Timestamp,
    second: Timestamp,
)
    ensures
        build_names(builds_of_folder(folder, ca_game, first)) == build_names(
            builds_of_folder(folder, ca_game, second),
        ),
        builds_of_folder(folder, ca_game, first).len() == builds_of_folder(
            folder,
            ca_game,
            second,
        ).len(),
        forall|i: int|
            0 <= i < builds_of_folder(folder, ca_game, first).len() ==> (ArmyBuildView {
                created_on: first,
                ..#[trigger] builds_of_folder(folder, ca_game, first)[i]
            }) == (ArmyBuildView {
                created_on: first,
                ..builds_of_folder(folder, ca_game, second)[i]
            }),
{
    assert(build_names(builds_of_folder(folder, ca_game, first)) =~= build_names(
        builds_of_folder(folder, ca_game, second),
    ));
}

/// Filtering one entry more keeps what was kept and adds the entry where it
/// passes.
pub proof fn lemma_filter_next<A>(s: Seq<A>, pred: spec_fn(A) -> bool, i: int)
    requires
        0 <= i < s.len(),
    ensures
        s.take(i + 1).filter(pred) == if pred(s[i]) {
            s.take(i).filter(pred).push(s[i])
        } else {
            s.take(i).filter(pred)
        },
{
    reveal(Seq::filter);
    assert(s.take(i + 1).drop_last() =~= s.take(i));
    assert(s.take(i + 1).last() == s[i]);
}

fn build_from_entry(entry: &FolderEntry, ca_game: &CaGame, now: Timestamp) -> (r: ArmyBuild)
    ensures
        r@ == build_of_entry(*entry, *ca_game, now),
{
    let (file_stem, _ext) = split_file_name(entry.file_name.as_str());
    let created_on = match entry.created_on {
        Some(t) => t,
        None => now,
    };
    let faction = parse_faction(&file_stem);
    let vs_faction = parse_vs_faction(&file_stem);
    let mut faction_str = String::new();
    let mut vs_faction_str = String::new();
    if *ca_game == CaGame::Warhammer2 {
        faction_str = String::from_str(get_faction_names(&faction));
        vs_faction_str = String::from_str(get_faction_names(&vs_faction));
    }
    let r = ArmyBuild {
        file: entry.path.clone(),
        file_stem,
        faction,
        funds: DEFAULT_FUNDS,
        vs_faction,
        created_on,
        original_file: entry.path.clone(),
        ca_game: *ca_game,
        created_by: String::new(),
        game_mod: String::new(),
        faction_str,
        vs_faction_str,
        win_count: 0,
        loss_count: 0,
        image_files: Vec::new(),
        notes: String::new(),
    };
    assert(r@.image_files =~= Seq::empty());
    r
}

/// What a scan of a folder for a game comes to: the reason for which the
/// folder cannot be loaded from, or else its builds.
pub open spec fn scan_outcome(folder: FolderListing, ca_game: CaGame, now: Timestamp) -> Result<
    Seq<ArmyBuildView>,
    FolderErrorView,
> {
    match load_folder_outcome(folder, army_setup_ext(ca_game)) {
        Err(why) => Err(why),
        Ok(_) => Ok(builds_of_folder(folder, ca_game, now)),
    }
}

/// The value of what a scan returned.
pub open spec fn scan_view(r: Result<Vec<ArmyBuild>, FolderError>) -> Result<
    Seq<ArmyBuildView>,
    FolderErrorView,
> {
    match r {
        Ok(builds) => Ok(build_views(builds@)),
        Err(why) => Err(why@),
    }
}

/// Reads the builds of a game out of a folder as it was read from disk. The
/// scan fails where nothing stands at the folder's path, where a file
/// stands there, and where the folder holds no army setup file of the game.
/// A file whose creation time the file system did not tell is dated `now`.
pub fn load_army_builds(folder: &FolderListing, ca_game: &CaGame, now: Timestamp) -> (r: Result<
    Vec<ArmyBuild>,
    FolderError,
>)
    ensures
        scan_view(r) == scan_outcome(*folder, *ca_game, now),
{
    let mut builds: Vec<ArmyBuild> = Vec::new();
    let extension = get_ca_game_army_setup_ext(*ca_game);
    match validate_load_folder(folder, extension.as_str()) {
        Ok(_) => {},
        Err(why) => {
            return Err(why);
        },
    }
    let ghost pred = |e: FolderEntry| is_army_setup(e, army_setup_ext(*ca_game));
    let ghost make = |e: FolderEntry| build_of_entry(e, *ca_game, now);
    let mut i: usize = 0;
    proof {
        reveal(Seq::filter);
        assert(folder.entries@.take(0).filter(pred) =~= Seq::empty());
        assert(build_views(builds@) =~= folder.entries@.take(0).filter(pred).map_values(make));
    }
    while i < folder.entries.len()
        invariant
            i <= folder.entries.len(),
            folder.kind == PathKind::Directory,
            extension@ == army_setup_ext(*ca_game),
            pred == |e: FolderEntry| is_army_setup(e, army_setup_ext(*ca_game)),
            make == |e: FolderEntry| build_of_entry(e, *ca_game, now),
            build_views(builds@) == folder.entries@.take(i as int).filter(pred).map_values(make),
        decreases folder.entries.len() - i,
    {
        proof {
            lemma_filter_next(folder.entries@, pred, i as int);
        }
        if is_army_setup_file(&folder.entries[i], extension.as_str()) {
            let build = build_from_entry(&folder.entries[i], ca_game, now);
            let ghost before = builds@;
            let ghost kept = folder.entries@.take(i as int).filter(pred);
            let ghost entry = folder.entries@[i as int];
            builds.push(build);
            proof {
                assert(build_views(builds@) =~= build_views(before).push(build@));
                assert(kept.push(entry).map_values(make) =~= kept.map_values(make).push(
                    make(entry),
                ));
            }
        }
        i += 1;
    }
    proof {
        assert(folder.entries@.take(folder.entries@.len() as int) =~= folder.entries@);
    }
    Ok(builds)
}

} // verus!
