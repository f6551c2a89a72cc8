use crate::army_build::{blank_build, ArmyBuild, ArmyBuildView};
use crate::army_setups_folder::{
    build_names, build_views, builds_of_folder, ca_game_folder_parts, error_message,
    insert_folder_outcome, lemma_insert_folder_outcome, lemma_scan_outcome, load_army_builds,
    load_folder_outcome, outcome_message, scan_outcome, ArmySetupsFolder, FolderListing,
    PathKind,
};
use crate::ca_game::{
    all_ca_games, army_setup_ext, game_index, game_of_folder_name, game_order,
    get_ca_game_army_setup_ext, get_ca_game_army_setups_folder, get_ca_game_title,
    lemma_game_order, publisher_folder, title, CaGame,
};
use crate::catalog::{
    builds_of_game, clone_builds, display_list, filter_builds, has_name, lemma_merged,
    lemma_name_set_len, merged, name_set, names_distinct, Catalog, GameCatalogs,
};
use crate::factions::Wh2Factions;
use crate::paths::{join_path, joined_path};
use crate::text::{decimal, decimal_text, has_substring, text_or_empty};
use crate::ymd_hms_dash_format::Timestamp;
use vstd::prelude::*;
use vstd::string::{StrSliceExecFns, StringExecFns};

verus! {

/// A file to copy, and where to.
#[derive(Debug)]
pub struct CopyJob {
    pub from: String,
    pub to: String,
}

/// The value of a `CopyJob`.
pub struct CopyJobView {
    pub from: Seq<char>,
    pub to: Seq<char>,
}

impl View for CopyJob {
    type V = CopyJobView;

    open spec fn view(&self) -> CopyJobView {
        CopyJobView { from: self.from@, to: self.to@ }
    }
}

/// Why a build was not inserted.
#[derive(Debug)]
pub enum InsertError {
    InvalidDestination,
    InvalidName,
    SourceMissing,
    CopyFailed(String),
}

/// The value of an `InsertError`.
pub enum InsertErrorView {
    InvalidDestination,
    InvalidName,
    SourceMissing,
    CopyFailed(Seq<char>),
}

impl View for InsertError {
    type V = InsertErrorView;

    open spec fn view(&self) -> InsertErrorView {
        match self {
            InsertError::InvalidDestination => InsertErrorView::InvalidDestination,
            InsertError::InvalidName => InsertErrorView::InvalidName,
            InsertError::SourceMissing => InsertErrorView::SourceMissing,
            InsertError::CopyFailed(reason) => InsertErrorView::CopyFailed(reason@),
        }
    }
}

/// The name under which a build is to be inserted, or what is wrong with
/// it: it must not be empty and must not begin with a dot.
pub open spec fn insert_name_verdict(insert_name: Seq<char>) -> Result<Seq<char>, Seq<char>> {
    if insert_name.len() == 0 {
        Err("Oy ya got to write something here"@)
    } else if insert_name[0] == '.' {
        Err("Can't start a name with special characters"@)
    } else {
        Ok(insert_name)
    }
}

/// Why an edit was not taken.
#[derive(Clone, Copy, Debug, PartialEq, Eq, Structural)]
pub enum EditError {
    /// Another build of the game is already shown under the new name.
    NameTaken,
}

impl EditError {
    /// The words in which the error is told to the user.
    pub fn message(&self) -> (r: String)
        ensures
            r@ == "That name already exists, pick another"@,
    {
        String::from_str("That name already exists, pick another")
    }
}

/// The words in which a failed insertion is told to the user; what is wrong
/// with a name is told in the words of `insert_name_verdict`.
pub open spec fn insert_error_message(insert_name: Seq<char>, e: InsertErrorView) -> Seq<char> {
    match e {
        InsertErrorView::InvalidDestination => "You're folder's no good"@,
        InsertErrorView::InvalidName => match insert_name_verdict(insert_name) {
            Err(words) => words,
            Ok(_) => Seq::empty(),
        },
        InsertErrorView::SourceMissing => "Da army file went missing!!!!"@,
        InsertErrorView::CopyFailed(_) => "Couldn't copy"@,
    }
}

/// The characters of a text or of the words of an error.
pub open spec fn texts_of(r: Result<String, String>) -> Result<Seq<char>, Seq<char>> {
    match r {
        Ok(s) => Ok(s@),
        Err(e) => Err(e@),
    }
}

/// The file that a build is inserted as: in the folder, under the name,
/// with the game's extension.
pub open spec fn insert_file(folder: Seq<char>, insert_name: Seq<char>, ca_game: CaGame) -> Seq<
    char,
> {
    folder + "/"@ + insert_name + "."@ + army_setup_ext(ca_game)
}

/// What inserting the selected build comes to, before anything is copied.
/// The checks are made in this order, and the first that fails decides: the
/// folder must be fit to insert into, the name must be valid, and the
/// build's file must still be a file.
pub open spec fn insert_plan(
    manager: ArmySetupsManager,
    destination_fits: bool,
    source: PathKind,
) -> Result<CopyJobView, InsertErrorView> {
    if !destination_fits {
        Err(InsertErrorView::InvalidDestination)
    } else if insert_name_verdict(manager.insert_name@) is Err {
        Err(InsertErrorView::InvalidName)
    } else if source != PathKind::File {
        Err(InsertErrorView::SourceMissing)
    } else {
        Ok(
            CopyJobView {
                from: manager.selected_army_build@.file,
                to: insert_file(
                    manager.insert_folder.folder_string@,
                    manager.insert_name@,
                    manager.selected_game,
                ),
            },
        )
    }
}

/// Into a folder that is fit, inserting under an empty name or under a name
/// that begins with a dot fails for the name, whatever has become of the
/// build's file; under any other name it succeeds exactly when the build's
/// file is still a file, and fails for the missing file when it is not.
pub proof fn lemma_insert_plan(manager: ArmySetupsManager, source: PathKind)
    ensures
        manager.insert_name@.len() == 0 || manager.insert_name@[0] == '.' ==> insert_plan(
            manager,
            true,
            source,
        ) == Err::<CopyJobView, InsertErrorView>(InsertErrorView::InvalidName),
        manager.insert_name@.len() > 0 && manager.insert_name@[0] != '.' && source
            != PathKind::File ==> insert_plan(manager, true, source) == Err::<
            CopyJobView,
            InsertErrorView,
        >(InsertErrorView::SourceMissing),
        manager.insert_name@.len() > 0 && manager.insert_name@[0] != '.' && source
            == PathKind::File ==> insert_plan(manager, true, source) is Ok,
        insert_plan(manager, false, source) == Err::<CopyJobView, InsertErrorView>(
            InsertErrorView::InvalidDestination,
        ),
{
}

/// The value of a plan or of the reason for which there is none.
pub open spec fn plan_view(r: Result<CopyJob, InsertError>) -> Result<CopyJobView, InsertErrorView> {
    match r {
        Ok(job) => Ok(job@),
        Err(e) => Err(e@),
    }
}

/// Whether a folder is fit to insert into for the game it belongs to,
/// where `default_folder` is the game's own folder of army setups or the
/// reason for which it is not known.
pub open spec fn destination_fits(
    folder: ArmySetupsFolder,
    kind: PathKind,
    default_folder: Result<String, String>,
) -> bool {
    match default_folder {
        Ok(p) => insert_folder_outcome(kind, folder.folder_string@, ca_game_folder_parts(p@)) is Ok,
        Err(_) => false,
    }
}

/// What the user works with: the game, the folders, the builds of each
/// game, the search and what it shows, and the build that is selected.
#[derive(Debug)]
pub struct ArmySetupsManager {
    pub selected_game: CaGame,
    pub load_folder: ArmySetupsFolder,
    pub army_builds: GameCatalogs,
    pub display_builds: Vec<ArmyBuild>,
    pub search_string: String,
    pub search_mod: String,
    pub search_faction: Wh2Factions,
    pub search_vs_faction: Wh2Factions,
    pub selected_army_build: ArmyBuild,
    pub edit_build: ArmyBuild,
    pub selected_display_build_indx: usize,
    pub insert_name: String,
    pub insert_folder: ArmySetupsFolder,
}

impl ArmySetupsManager {
    /// Whether, within the builds of each game, no two are shown under the
    /// same name.
    pub open spec fn wf(&self) -> bool {
        self.army_builds.wf()
    }

    /// A manager for the second Warhammer game, with the given folders and
    /// builds: it shows the builds of that game, searches for nothing in
    /// particular, and has no build selected.
    pub fn new(
        load_folder: ArmySetupsFolder,
        insert_folder: ArmySetupsFolder,
        army_builds: GameCatalogs,
    ) -> (r: Self)
        requires
            army_builds.wf(),
        ensures
            r.wf(),
            r.selected_game == CaGame::Warhammer2,
            r.load_folder == load_folder,
            r.insert_folder == insert_folder,
            r.army_builds == army_builds,
            build_views(r.display_builds@) == builds_of_game(army_builds@, CaGame::Warhammer2),
            r.search_string@ == Seq::<char>::empty(),
            r.search_mod@ == Seq::<char>::empty(),
            r.search_faction == Wh2Factions::ALL,
            r.search_vs_faction == Wh2Factions::ALL,
            r.selected_army_build@ == blank_build(r.selected_army_build.created_on),
            r.edit_build@ == blank_build(r.edit_build.created_on),
            r.selected_display_build_indx == usize::MAX,
            r.insert_name@ == "AAAAAAGHOWAAAAAAA"@,
    {
        let selected_game = CaGame::Warhammer2;
        let display_builds = match army_builds.get(selected_game) {
            Some(army_set) => clone_builds(army_set.builds()),
            None => {
                let none: Vec<ArmyBuild> = Vec::new();
                assert(build_views(none@) =~= Seq::<ArmyBuildView>::empty());
                none
            },
        };
        Self {
            selected_game,
            load_folder,
            army_builds,
            display_builds,
            search_string: String::new(),
            search_faction: Wh2Factions::ALL,
            search_vs_faction: Wh2Factions::ALL,
            search_mod: String::new(),
            selected_army_build: ArmyBuild::default(),
            edit_build: ArmyBuild::default(),
            selected_display_build_indx: usize::MAX,
            insert_name: String::from_str("AAAAAAGHOWAAAAAAA"),
            insert_folder,
        }
    }

    /// The title of the selected game.
    pub fn get_selected_game(&self) -> (r: String)
        ensures
            r@ == title(self.selected_game),
    {
        get_ca_game_title(&self.selected_game)
    }

    /// Selects a game.
    pub fn set_selected_game(&mut self, ca_game: CaGame)
        ensures
            *final(self) == (ArmySetupsManager { selected_game: ca_game, ..*old(self) }),
    {
        self.selected_game = ca_game;
    }

    /// The builds of a game. A game without a catalog is given an empty one.
    pub fn get_game_army_builds(&mut self, ca_game: CaGame) -> (r: Catalog)
        requires
            old(self).wf(),
        ensures
            final(self).wf(),
            r.wf(),
            r@ == builds_of_game(old(self).army_builds@, ca_game),
            final(self).army_builds@ == old(self).army_builds@.insert(
                ca_game,
                builds_of_game(old(self).army_builds@, ca_game),
            ),
            *final(self) == (ArmySetupsManager {
                army_builds: final(self).army_builds,
                ..*old(self)
            }),
    {
        self.army_builds.get_or_insert_empty(ca_game)
    }

    /// The name to insert under, or what is wrong with it.
    pub fn valid_insert_name(&self) -> (r: Result<String, String>)
        ensures
            texts_of(r) == insert_name_verdict(self.insert_name@),
    {
        if self.insert_name.as_str().unicode_len() == 0 {
            return Err(String::from_str("Oy ya got to write something here"));
        }
        if self.insert_name.as_str().get_char(0) == '.' {
            return Err(String::from_str("Can't start a name with special characters"));
        }
        Ok(self.insert_name.clone())
    }

    /// Shows the builds of the selected game that pass the search, ordered
    /// by name. Nothing but what is shown changes.
    pub fn update_display_builds(&mut self)
        requires
            old(self).wf(),
        ensures
            final(self).wf(),
            build_views(final(self).display_builds@) == display_list(
                builds_of_game(old(self).army_builds@, old(self).selected_game),
                old(self).search_faction,
                old(self).search_vs_faction,
                old(self).search_string@,
            ),
            *final(self) == (ArmySetupsManager {
                display_builds: final(self).display_builds,
                ..*old(self)
            }),
    {
        let display_builds = match self.army_builds.get(self.selected_game) {
            Some(game_builds) => filter_builds(
                game_builds.builds(),
                self.search_faction,
                self.search_vs_faction,
                self.search_string.as_str(),
            ),
            None => {
                let none: Vec<ArmyBuild> = Vec::new();
                assert(build_views(none@) =~= Seq::<ArmyBuildView>::empty());
                filter_builds(
                    &none,
                    self.search_faction,
                    self.search_vs_faction,
                    self.search_string.as_str(),
                )
            },
        };
        self.display_builds = display_builds;
    }

    /// Takes a new folder to load from: the game's own folder of army
    /// setups, for the game that its path tells of, checked against what was
    /// read there. Where that folder is not known, nothing changes.
    pub fn update_load_folder(&mut self, folder: &Result<String, String>, listing: &FolderListing)
        ensures
            match folder {
                Ok(f_string) => {
                    &&& final(self).load_folder.folder_string@ == f_string@
                    &&& final(self).load_folder.ca_game == game_of_folder_name(f_string@)
                    &&& final(self).load_folder.folder_error@ == outcome_message(
                        load_folder_outcome(
                            *listing,
                            army_setup_ext(game_of_folder_name(f_string@)),
                        ),
                    )
                    &&& *final(self) == (ArmySetupsManager {
                        load_folder: final(self).load_folder,
                        ..*old(self)
                    })
                },
                Err(_) => *final(self) == *old(self),
            },
    {
        match folder {
            Ok(f_string) => {
                self.load_folder = ArmySetupsFolder::new(f_string.as_str(), listing);
            },
            Err(_) => {},
        }
    }

    /// Takes a new folder to insert into: the game's own folder of army
    /// setups, for the game that its path tells of, checked against what was
    /// read there. Where that folder is not known, nothing changes.
    pub fn update_insert_folder(&mut self, folder: &Result<String, String>, listing: &FolderListing)
        ensures
            match folder {
                Ok(f_string) => {
                    &&& final(self).insert_folder.folder_string@ == f_string@
                    &&& final(self).insert_folder.ca_game == game_of_folder_name(f_string@)
                    &&& final(self).insert_folder.folder_error@ == outcome_message(
                        load_folder_outcome(
                            *listing,
                            army_setup_ext(game_of_folder_name(f_string@)),
                        ),
                    )
                    &&& *final(self) == (ArmySetupsManager {
                        insert_folder: final(self).insert_folder,
                        ..*old(self)
                    })
                },
                Err(_) => *final(self) == *old(self),
            },
    {
        match folder {
            Ok(f_string) => {
                self.insert_folder = ArmySetupsFolder::new(f_string.as_str(), listing);
            },
            Err(_) => {},
        }
    }

    /// Selects the build in a row of what is shown, for inserting and for
    /// editing. A row that is not shown selects nothing.
    pub fn select_display_build(&mut self, row: usize) -> (selected: bool)
        ensures
            selected == (row < old(self).display_builds@.len()),
            selected ==> {
                &&& final(self).selected_army_build@ == old(self).display_builds@[row as int]@
                &&& final(self).edit_build@ == old(self).display_builds@[row as int]@
                &&& final(self).selected_display_build_indx == row
                &&& *final(self) == (ArmySetupsManager {
                    selected_army_build: final(self).selected_army_build,
                    edit_build: final(self).edit_build,
                    selected_display_build_indx: row,
                    ..*old(self)
                })
            },
            !selected ==> *final(self) == *old(self),
    {
        if row < self.display_builds.len() {
            self.selected_army_build = self.display_builds[row].clone();
            self.edit_build = self.display_builds[row].clone();
            self.selected_display_build_indx = row;
            true
        } else {
            false
        }
    }

    /// Whether a row has been selected that can still be among what is
    /// shown.
    pub fn has_selection(&self) -> (r: bool)
        ensures
            r == (self.selected_display_build_indx <= self.display_builds@.len()),
    {
        self.selected_display_build_indx <= self.display_builds.len()
    }

    /// Whether the edited build has been given a name under which another
    /// build of the selected game is shown.
    pub fn edit_name_collides(&self) -> (r: bool)
        requires
            self.wf(),
        ensures
            r == (self.edit_build@.file_stem != self.selected_army_build@.file_stem && has_name(
                builds_of_game(self.army_builds@, self.selected_game),
                self.edit_build@.file_stem,
            )),
    {
        if self.edit_build.file_stem != self.selected_army_build.file_stem {
            match self.army_builds.get(self.selected_game) {
                Some(army_set) => army_set.contains(&self.edit_build),
                None => false,
            }
        } else {
            false
        }
    }

    /// Takes the edited build for the selected one, unless its new name is
    /// that of another build of the selected game.
    pub fn apply_edits(&mut self) -> (r: Result<(), EditError>)
        requires
            old(self).wf(),
        ensures
            r is Err <==> old(self).edit_build@.file_stem != old(self).selected_army_build@.file_stem
                && has_name(
                builds_of_game(old(self).army_builds@, old(self).selected_game),
                old(self).edit_build@.file_stem,
            ),
            r is Ok ==> final(self).selected_army_build@ == old(self).edit_build@ && *final(self)
                == (ArmySetupsManager {
                selected_army_build: final(self).selected_army_build,
                ..*old(self)
            }),
            r is Err ==> *final(self) == *old(self),
    {
        if self.edit_name_collides() {
            Err(EditError::NameTaken)
        } else {
            self.selected_army_build = self.edit_build.clone();
            Ok(())
        }
    }

    /// The words in which a failed insertion is told to the user.
    pub fn insert_error_message(&self, e: &InsertError) -> (r: String)
        ensures
            r@ == insert_error_message(self.insert_name@, e@),
    {
        match e {
            InsertError::InvalidDestination => String::from_str("You're folder's no good"),
            InsertError::InvalidName => match self.valid_insert_name() {
                Err(words) => words,
                Ok(_) => String::new(),
            },
            InsertError::SourceMissing => String::from_str("Da army file went missing!!!!"),
            InsertError::CopyFailed(_) => String::from_str("Couldn't copy"),
        }
    }

    /// What inserting the selected build comes to, before anything is
    /// copied, where `default_folder` is the game's own folder of army
    /// setups or the reason for which it is not known.
    pub fn insert_army_given(
        &self,
        destination: PathKind,
        default_folder: &Result<String, String>,
        source: PathKind,
    ) -> (r: Result<CopyJob, InsertError>)
        ensures
            plan_view(r) == insert_plan(
                *self,
                destination_fits(self.insert_folder, destination, *default_folder),
                source,
            ),
    {
        if !self.insert_folder.is_ca_game_folder_given(destination, default_folder) {
            return Err(InsertError::InvalidDestination);
        }
        let insert_name = match self.valid_insert_name() {
            Ok(valid_name) => valid_name,
            Err(_) => {
                return Err(InsertError::InvalidName);
            },
        };
        if source != PathKind::File {
            return Err(InsertError::SourceMissing);
        }
        let extension = get_ca_game_army_setup_ext(self.selected_game);
        let mut insert_file = self.insert_folder.folder_string.clone();
        insert_file.append("/");
        insert_file.append(insert_name.as_str());
        insert_file.append(".");
        insert_file.append(extension.as_str());
        Ok(CopyJob { from: self.selected_army_build.file.clone(), to: insert_file })
    }

    /// What inserting the selected build comes to, before anything is
    /// copied, with the game's own folder of army setups taken below the
    /// home folder that the environment names. The folder is looked at
    /// first: where no folder stands at its path, or its path lacks the
    /// publisher's folder, the insertion fails for the folder whatever the
    /// name and the file are.
    pub fn insert_army(&self, destination: PathKind, source: PathKind) -> (r: Result<
        CopyJob,
        InsertError,
    >)
        ensures
            exists|fits: bool| plan_view(r) == #[trigger] insert_plan(*self, fits, source),
            destination != PathKind::Directory ==> plan_view(r) == Err::<
                CopyJobView,
                InsertErrorView,
            >(InsertErrorView::InvalidDestination),
            !has_substring(self.insert_folder.folder_string@, publisher_folder()) ==> plan_view(r)
                == Err::<CopyJobView, InsertErrorView>(InsertErrorView::InvalidDestination),
    {
        let default_folder = get_ca_game_army_setups_folder(self.insert_folder.ca_game);
        let r = self.insert_army_given(destination, &default_folder, source);
        proof {
            assert(plan_view(r) == insert_plan(
                *self,
                destination_fits(self.insert_folder, destination, default_folder),
                source,
            ));
            if default_folder is Ok {
                let p = default_folder->Ok_0@;
                lemma_insert_folder_outcome(
                    destination,
                    self.insert_folder.folder_string@,
                    ca_game_folder_parts(p),
                );
                assert(ca_game_folder_parts(p)[0] == publisher_folder());
            }
        }
        r
    }
}

/// The values of a list of copies.
pub open spec fn job_views(jobs: Seq<CopyJob>) -> Seq<CopyJobView> {
    jobs.map_values(|j: CopyJob| j@)
}

/// The file that a build is staged as: in this program's folder, under the
/// build's name with the game's extension.
pub open spec fn staged_file(appdata: Seq<char>, file_stem: Seq<char>, ca_game: CaGame) -> Seq<
    char,
> {
    joined_path(appdata, file_stem + "."@ + army_setup_ext(ca_game))
}

/// The name that a build is given when its own is taken: its name, a space
/// and the time at which it was made.
pub open spec fn renamed_stem(build: ArmyBuildView) -> Seq<char> {
    build.file_stem + " "@ + text_or_empty(build.created_on.text())
}

/// A build as it goes into a load: where the folder loaded from does not
/// rule over the names and the build's name is taken, it is renamed.
pub open spec fn planned_army(
    build: ArmyBuildView,
    catalog: Seq<ArmyBuildView>,
    dominant: bool,
) -> ArmyBuildView {
    if !dominant && has_name(catalog, build.file_stem) {
        ArmyBuildView { file_stem: renamed_stem(build), ..build }
    } else {
        build
    }
}

/// The copy that a load asks for a build: from its file to the file that
/// it is staged as, under the name with which it goes into the load.
pub open spec fn planned_copy(
    build: ArmyBuildView,
    catalog: Seq<ArmyBuildView>,
    appdata: Seq<char>,
    ca_game: CaGame,
    dominant: bool,
) -> CopyJobView {
    CopyJobView {
        from: build.file,
        to: staged_file(appdata, planned_army(build, catalog, dominant).file_stem, ca_game),
    }
}

/// What a load is to do: the builds that were found, one copy for each, and
/// whether the folder loaded from rules over the names.
#[derive(Debug)]
pub struct LoadPlan {
    pub dominant: bool,
    pub armies: Vec<ArmyBuild>,
    pub copies: Vec<CopyJob>,
}

/// The words before the reason for which a load cannot begin.
pub open spec fn load_error_prefix() -> Seq<char> {
    "load_folder_to_owaagh_appdata "@
}

/// The builds of a load once the copies were tried: a build whose copy was
/// made has the copy for its file.
pub open spec fn staged_armies(
    armies: Seq<ArmyBuildView>,
    copies: Seq<CopyJobView>,
    copied: Seq<Result<(), String>>,
) -> Seq<ArmyBuildView> {
    Seq::new(
        armies.len(),
        |i: int|
            if copied[i] is Ok {
                ArmyBuildView { file: copies[i].to, ..armies[i] }
            } else {
                armies[i]
            },
    )
}

/// The place of the first copy, counted from `from`, that failed.
pub open spec fn first_failure_from(copied: Seq<Result<(), String>>, from: int) -> Option<int>
    decreases copied.len() - from,
{
    if from < 0 || from >= copied.len() {
        None
    } else if copied[from] is Err {
        Some(from)
    } else {
        first_failure_from(copied, from + 1)
    }
}

/// The words in which the number of builds that were added is told.
pub open spec fn added_message(added: nat) -> Seq<char> {
    decimal(added) + " Builds Added"@
}

/// The words in which a failed copy is told.
pub open spec fn copy_failure_message(reason: Seq<char>, file_stem: Seq<char>) -> Seq<char> {
    reason + " for file_stem "@ + file_stem
}

/// Staging changes no name: the builds of a load are shown under the names
/// with which they went into it, whatever became of the copies.
pub proof fn lemma_staged_names(
    armies: Seq<ArmyBuildView>,
    copies: Seq<CopyJobView>,
    copied: Seq<Result<(), String>>,
)
    ensures
        build_names(staged_armies(armies, copies, copied)) == build_names(armies),
        name_set(staged_armies(armies, copies, copied)) == name_set(armies),
{
    let staged = staged_armies(armies, copies, copied);
    assert(build_names(staged) =~= build_names(armies));
    assert forall|name: Seq<char>| has_name(staged, name) <==> has_name(armies, name) by {
        if has_name(staged, name) {
            let i = choose|i: int| 0 <= i < staged.len() && staged[i].file_stem == name;
            assert(armies[i].file_stem == name);
        }
        if has_name(armies, name) {
            let i = choose|i: int| 0 <= i < armies.len() && armies[i].file_stem == name;
            assert(staged[i].file_stem == name);
        }
    }
    assert(name_set(staged) =~= name_set(armies));
}

/// What a load that merges leaves in a catalog: the names are those that
/// were there together with those of the builds of the load, no two builds
/// are shown under the same name, and as many builds were added as there
/// are names that are new.
pub proof fn lemma_load_is_union(
    before: Seq<ArmyBuildView>,
    armies: Seq<ArmyBuildView>,
    copies: Seq<CopyJobView>,
    copied: Seq<Result<(), String>>,
)
    requires
        names_distinct(before),
    ensures
        names_distinct(merged(before, staged_armies(armies, copies, copied))),
        name_set(merged(before, staged_armies(armies, copies, copied))) == name_set(before).union(
            name_set(armies),
        ),
        merged(before, staged_armies(armies, copies, copied)).len() - before.len() == name_set(
            before,
        ).union(name_set(armies)).len() - name_set(before).len(),
{
    let staged = staged_armies(armies, copies, copied);
    lemma_staged_names(armies, copies, copied);
    lemma_merged(before, staged);
    lemma_name_set_len(before);
    lemma_name_set_len(merged(before, staged));
}

fn with_file(build: &ArmyBuild, file: &String) -> (r: ArmyBuild)
    ensures
        r@ == (ArmyBuildView { file: file@, ..build@ }),
{
    let mut r = build.clone();
    r.file = file.clone();
    r
}

fn with_stem(build: &ArmyBuild, file_stem: String) -> (r: ArmyBuild)
    ensures
        r@ == (ArmyBuildView { file_stem: file_stem@, ..build@ }),
{
    let mut r = build.clone();
    r.file_stem = file_stem;
    r
}

fn staged_file_path(appdata: &str, file_stem: &str, ca_game: CaGame) -> (r: String)
    ensures
        r@ == staged_file(appdata@, file_stem@, ca_game),
{
    let mut name = String::from_str(file_stem);
    name.append(".");
    name.append(get_ca_game_army_setup_ext(ca_game).as_str());
    join_path(appdata, name.as_str())
}

fn renamed_stem_of(build: &ArmyBuild) -> (r: String)
    ensures
        r@ == renamed_stem(build@),
{
    let mut r = build.file_stem.clone();
    r.append(" ");
    r.append(build.created_on.format_or_empty().as_str());
    r
}

fn staged_builds(
    armies: &Vec<ArmyBuild>,
    copies: &Vec<CopyJob>,
    copied: &Vec<Result<(), String>>,
    upto: usize,
) -> (staged: Vec<ArmyBuild>)
    requires
        armies@.len() == copies@.len(),
        armies@.len() == copied@.len(),
        upto <= armies@.len(),
    ensures
        build_views(staged@) == staged_armies(
            build_views(armies@),
            job_views(copies@),
            copied@,
        ).take(upto as int),
{
    let ghost all = staged_armies(build_views(armies@), job_views(copies@), copied@);
    let mut staged: Vec<ArmyBuild> = Vec::new();
    let mut i: usize = 0;
    assert(build_views(staged@) =~= all.take(0));
    while i < upto
        invariant
            i <= upto,
            upto <= armies@.len(),
            armies@.len() == copies@.len(),
            armies@.len() == copied@.len(),
            all == staged_armies(build_views(armies@), job_views(copies@), copied@),
            build_views(staged@) == all.take(i as int),
        decreases upto - i,
    {
        let ghost before = staged@;
        let a = match &copied[i] {
            Ok(_) => with_file(&armies[i], &copies[i].to),
            Err(_) => armies[i].clone(),
        };
        staged.push(a);
        proof {
            assert(build_views(armies@)[i as int] == armies@[i as int]@);
            assert(job_views(copies@)[i as int] == copies@[i as int]@);
            assert(build_views(staged@) =~= build_views(before).push(a@));
            assert(build_views(staged@) =~= all.take(i + 1));
        }
        i += 1;
    }
    staged
}

fn first_failure(copied: &Vec<Result<(), String>>) -> (r: Option<usize>)
    ensures
        match r {
            Some(k) => first_failure_from(copied@, 0) == Some(k as int) && k < copied@.len()
                && copied@[k as int] is Err,
            None => first_failure_from(copied@, 0) is None,
        },
{
    let mut i: usize = 0;
    while i < copied.len()
        invariant
            i <= copied.len(),
            first_failure_from(copied@, 0) == first_failure_from(copied@, i as int),
        decreases copied.len() - i,
    {
        if copied[i].is_err() {
            return Some(i);
        }
        i += 1;
    }
    None
}

impl ArmySetupsManager {
    /// Begins a load of the builds in the folder to load from. The folder
    /// is scanned for the selected game, and the load cannot begin where the
    /// scan fails, nor where this program's folder is not known; `appdata`
    /// is that folder, or the reason for which it is not known, and
    /// `default_folder` the game's own folder of army setups. Every build
    /// that was found is to be copied into this program's folder. Where the
    /// folder to load from is the game's own, it rules over the names:
    /// every build keeps its name. Where it is not, a build whose name is
    /// taken in the catalog of the selected game is renamed.
    pub fn load_folder_to_owaagh_appdata(
        &self,
        load_listing: &FolderListing,
        load_kind: PathKind,
        default_folder: &Result<String, String>,
        appdata: &Result<String, String>,
        now: Timestamp,
    ) -> (r: Result<LoadPlan, String>)
        requires
            self.wf(),
        ensures
            match r {
                Err(e) => match scan_outcome(*load_listing, self.selected_game, now) {
                    Err(why) => e@ == load_error_prefix() + error_message(why),
                    Ok(_) => appdata is Err && e@ == load_error_prefix() + appdata->Err_0@,
                },
                Ok(plan) => {
                    let found = builds_of_folder(*load_listing, self.selected_game, now);
                    let catalog = builds_of_game(self.army_builds@, self.selected_game);
                    &&& scan_outcome(*load_listing, self.selected_game, now) is Ok
                    &&& appdata is Ok
                    &&& plan.dominant == destination_fits(
                        self.load_folder,
                        load_kind,
                        *default_folder,
                    )
                    &&& plan.armies@.len() == found.len()
                    &&& plan.copies@.len() == found.len()
                    &&& forall|i: int|
                        0 <= i < found.len() ==> (#[trigger] plan.armies@[i])@ == planned_army(
                            found[i],
                            catalog,
                            plan.dominant,
                        )
                    &&& forall|i: int|
                        0 <= i < found.len() ==> (#[trigger] plan.copies@[i])@ == planned_copy(
                            found[i],
                            catalog,
                            appdata->Ok_0@,
                            self.selected_game,
                            plan.dominant,
                        )
                },
            },
    {
        let found = match load_army_builds(load_listing, &self.selected_game, now) {
            Ok(found) => found,
            Err(why) => {
                let mut e = String::from_str("load_folder_to_owaagh_appdata ");
                e.append(why.message().as_str());
                return Err(e);
            },
        };
        let owaagh_appdata_path = match appdata {
            Ok(p) => p,
            Err(why) => {
                let mut e = String::from_str("load_folder_to_owaagh_appdata ");
                e.append(why.as_str());
                return Err(e);
            },
        };
        let dominant = self.load_folder.is_ca_game_folder_given(load_kind, default_folder);
        let ghost all = build_views(found@);
        let ghost catalog = builds_of_game(self.army_builds@, self.selected_game);
        let game_army_builds = self.army_builds.get(self.selected_game);
        let mut armies: Vec<ArmyBuild> = Vec::new();
        let mut copies: Vec<CopyJob> = Vec::new();
        let mut i: usize = 0;
        while i < found.len()
            invariant
                i <= found.len(),
                all == build_views(found@),
                catalog == builds_of_game(self.army_builds@, self.selected_game),
                match game_army_builds {
                    Some(c) => c@ == catalog,
                    None => catalog.len() == 0,
                },
                armies@.len() == i,
                copies@.len() == i,
                forall|j: int|
                    0 <= j < i ==> (#[trigger] armies@[j])@ == planned_army(
                        all[j],
                        catalog,
                        dominant,
                    ),
                forall|j: int|
                    0 <= j < i ==> (#[trigger] copies@[j])@ == planned_copy(
                        all[j],
                        catalog,
                        owaagh_appdata_path@,
                        self.selected_game,
                        dominant,
                    ),
            decreases found.len() - i,
        {
            assert(all[i as int] == found@[i as int]@);
            let a = &found[i];
            let taken = !dominant && match game_army_builds {
                Some(c) => c.contains(a),
                None => false,
            };
            let army = if taken {
                with_stem(a, renamed_stem_of(a))
            } else {
                a.clone()
            };
            let to = staged_file_path(
                owaagh_appdata_path.as_str(),
                army.file_stem.as_str(),
                self.selected_game,
            );
            copies.push(CopyJob { from: a.file.clone(), to });
            armies.push(army);
            i += 1;
        }
        Ok(LoadPlan { dominant, armies, copies })
    }

    /// Ends a load, once each copy of its plan was tried. The builds go
    /// into the catalog of the selected game, each with its copy for its
    /// file where the copy was made, unless a build is already shown under
    /// its name, and the number of builds that went in is told. Where the
    /// folder loaded from does not rule over the names, a copy that failed
    /// stops the load: nothing goes in, and the first such copy is told.
    pub fn finish_load(&mut self, plan: &LoadPlan, copied: &Vec<Result<(), String>>) -> (r: Result<
        String,
        String,
    >)
        requires
            old(self).wf(),
            plan.armies@.len() == plan.copies@.len(),
            plan.armies@.len() == copied@.len(),
        ensures
            final(self).wf(),
            *final(self) == (ArmySetupsManager {
                army_builds: final(self).army_builds,
                ..*old(self)
            }),
            !plan.dominant && first_failure_from(copied@, 0) is Some ==> {
                let k = first_failure_from(copied@, 0)->0;
                &&& final(self).army_builds@ == old(self).army_builds@
                &&& r is Err
                &&& r->Err_0@ == copy_failure_message(
                    copied@[k]->Err_0@,
                    plan.armies@[k]@.file_stem,
                )
            },
            plan.dominant || first_failure_from(copied@, 0) is None ==> {
                let before = builds_of_game(old(self).army_builds@, old(self).selected_game);
                let after = merged(
                    before,
                    staged_armies(build_views(plan.armies@), job_views(plan.copies@), copied@),
                );
                &&& final(self).army_builds@ == old(self).army_builds@.insert(
                    old(self).selected_game,
                    after,
                )
                &&& r is Ok
                &&& r->Ok_0@ == added_message((after.len() - before.len()) as nat)
            },
    {
        if !plan.dominant {
            match first_failure(copied) {
                Some(k) => {
                    let mut e = match &copied[k] {
                        Err(reason) => reason.clone(),
                        Ok(_) => String::new(),
                    };
                    e.append(" for file_stem ");
                    e.append(plan.armies[k].file_stem.as_str());
                    return Err(e);
                },
                None => {},
            }
        }
        let staged = staged_builds(&plan.armies, &plan.copies, copied, plan.armies.len());
        proof {
            let all = staged_armies(build_views(plan.armies@), job_views(plan.copies@), copied@);
            assert(all.take(plan.armies@.len() as int) =~= all);
        }
        let n_added = self.army_builds.add_builds(self.selected_game, &staged);
        let mut added_notification = decimal_text(n_added as u64);
        added_notification.append(" Builds Added");
        Ok(added_notification)
    }
}

/// The builds that were found for a game, where `listings` holds for each
/// game, in the order of the games, what was read in its folder, or nothing
/// where the folder is not known.
pub open spec fn listed_builds(
    listings: Seq<Option<FolderListing>>,
    ca_game: CaGame,
    now: Timestamp,
) -> Seq<ArmyBuildView> {
    let i = game_index(ca_game);
    if i < listings.len() && listings[i] is Some {
        builds_of_folder(listings[i]->0, ca_game, now)
    } else {
        Seq::empty()
    }
}

/// The catalogs of the games whose folders hold builds: each game for which
/// builds were found has a catalog of them, in which the first build of a
/// name is kept; the other games have none.
pub fn get_ca_army_builds(listings: &Vec<Option<FolderListing>>, now: Timestamp) -> (r:
    GameCatalogs)
    ensures
        r.wf(),
        forall|g: CaGame| #[trigger]
            r@.contains_key(g) <==> listed_builds(listings@, g, now).len() > 0,
        forall|g: CaGame| #[trigger]
            r@.contains_key(g) ==> r@[g] == merged(
                Seq::<ArmyBuildView>::empty(),
                listed_builds(listings@, g, now),
            ),
{
    let mut army_builds = GameCatalogs::new();
    let games = all_ca_games();
    let mut i: usize = 0;
    proof {
        lemma_game_order(CaGame::Attila);
    }
    while i < games.len()
        invariant
            i <= games.len(),
            games@ == game_order(),
            games@.len() == 12,
            army_builds.wf(),
            forall|g: CaGame| #[trigger]
                army_builds@.contains_key(g) <==> game_index(g) < i && listed_builds(
                    listings@,
                    g,
                    now,
                ).len() > 0,
            forall|g: CaGame| #[trigger]
                army_builds@.contains_key(g) ==> army_builds@[g] == merged(
                    Seq::<ArmyBuildView>::empty(),
                    listed_builds(listings@, g, now),
                ),
        decreases games.len() - i,
    {
        let ca_game = games[i];
        proof {
            lemma_game_order(ca_game);
            assert forall|g: CaGame| game_index(g) == i implies g == ca_game by {
                lemma_game_order(g);
            }
        }
        if i < listings.len() {
            match &listings[i] {
                Some(listing) => {
                    proof {
                        lemma_scan_outcome(*listing, ca_game, now);
                    }
                    match load_army_builds(listing, &ca_game, now) {
                        Ok(game_army_builds) => {
                            let catalog = Catalog::from_builds(&game_army_builds);
                            army_builds.insert(ca_game, catalog);
                        },
                        Err(_) => {},
                    }
                },
                None => {},
            }
        }
        i += 1;
    }
    proof {
        assert forall|g: CaGame| game_index(g) < 12 by {
            lemma_game_order(g);
        }
    }
    army_builds
}

/// The copies that bringing a game's default builds in asks for: one for
/// each default build, from its file to the file that it is staged as in
/// this program's folder.
pub fn default_copies(ca_game: CaGame, default_armies: &Catalog, appdata: &str) -> (r: Vec<
    CopyJob,
>)
    ensures
        r@.len() == default_armies@.len(),
        forall|i: int|
            0 <= i < r@.len() ==> (#[trigger] r@[i])@ == (CopyJobView {
                from: default_armies@[i].file,
                to: staged_file(appdata@, default_armies@[i].file_stem, ca_game),
            }),
{
    let mut copies: Vec<CopyJob> = Vec::new();
    let defaults = default_armies.builds();
    let mut i: usize = 0;
    while i < defaults.len()
        invariant
            i <= defaults.len(),
            build_views(defaults@) == default_armies@,
            copies@.len() == i,
            forall|j: int|
                0 <= j < i ==> (#[trigger] copies@[j])@ == (CopyJobView {
                    from: default_armies@[j].file,
                    to: staged_file(appdata@, default_armies@[j].file_stem, ca_game),
                }),
        decreases defaults.len() - i,
    {
        assert(default_armies@[i as int] == defaults@[i as int]@);
        let d_a = &defaults[i];
        let to = staged_file_path(appdata, d_a.file_stem.as_str(), ca_game);
        copies.push(CopyJob { from: d_a.file.clone(), to });
        i += 1;
    }
    copies
}

/// The number of copies that were made before the first that failed.
pub open spec fn copies_made(copied: Seq<Result<(), String>>) -> int {
    match first_failure_from(copied, 0) {
        Some(k) => k,
        None => copied.len() as int,
    }
}

/// Brings a game's default builds in, once each copy that `default_copies`
/// asked for was tried. The builds before the first whose copy failed go
/// into the catalog of the game, which it is given if it has none, each
/// with its copy for its file, unless a build is already shown under its
/// name. The result says whether every copy was made.
pub fn append_default_army_builds(
    army_builds: &mut GameCatalogs,
    ca_game: CaGame,
    default_armies: &Catalog,
    copies: &Vec<CopyJob>,
    copied: &Vec<Result<(), String>>,
) -> (all_made: bool)
    requires
        old(army_builds).wf(),
        copies@.len() == default_armies@.len(),
        copied@.len() == default_armies@.len(),
    ensures
        final(army_builds).wf(),
        all_made == (first_failure_from(copied@, 0) is None),
        final(army_builds)@ == old(army_builds)@.insert(
            ca_game,
            merged(
                builds_of_game(old(army_builds)@, ca_game),
                staged_armies(default_armies@, job_views(copies@), copied@).take(
                    copies_made(copied@),
                ),
            ),
        ),
{
    let failed = first_failure(copied);
    let made = match failed {
        Some(k) => k,
        None => copied.len(),
    };
    let staged = staged_builds(default_armies.builds(), copies, copied, made);
    army_builds.add_builds(ca_game, &staged);
    failed.is_none()
}

/// What an insertion ends in, once the copy was tried: success, or the
/// reason for which the copy failed.
pub fn insert_result(copied: Result<(), String>) -> (r: Result<(), InsertError>)
    ensures
        match copied {
            Ok(_) => r is Ok,
            Err(reason) => r is Err && r->Err_0@ == InsertErrorView::CopyFailed(reason@),
        },
{
    match copied {
        Ok(_) => Ok(()),
        Err(reason) => Err(InsertError::CopyFailed(reason)),
    }
}

} // verus!
