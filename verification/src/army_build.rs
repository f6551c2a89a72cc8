use crate::ca_game::CaGame;
use crate::factions::Wh2Factions;
use crate::text::{clone_texts, decimal, decimal_text, text_or_empty};
use crate::ymd_hms_dash_format::{utc_now, Timestamp};
use vstd::prelude::*;
use vstd::string::StringExecFns;

verus! {

/// One army setup file on disk, with what is known about it.
#[derive(Debug)]
pub struct ArmyBuild {
    pub file: String,
    /// The file's name without its extension: the name under which the build
    /// is shown, and what tells one build from another.
    pub file_stem: String,
    pub original_file: String,
    pub created_on: Timestamp,
    pub faction: Wh2Factions,
    pub vs_faction: Wh2Factions,
    pub ca_game: CaGame,
    pub game_mod: String,
    pub created_by: String,
    pub faction_str: String,
    pub vs_faction_str: String,
    pub win_count: u32,
    pub loss_count: u32,
    pub funds: u32,
    pub image_files: Vec<String>,
    pub notes: String,
}

/// The value of an `ArmyBuild`: its texts as sequences of characters.
pub struct ArmyBuildView {
    pub file: Seq<char>,
    pub file_stem: Seq<char>,
    pub original_file: Seq<char>,
    pub created_on: Timestamp,
    pub faction: Wh2Factions,
    pub vs_faction: Wh2Factions,
    pub ca_game: CaGame,
    pub game_mod: Seq<char>,
    pub created_by: Seq<char>,
    pub faction_str: Seq<char>,
    pub vs_faction_str: Seq<char>,
    pub win_count: u32,
    pub loss_count: u32,
    pub funds: u32,
    pub image_files: Seq<Seq<char>>,
    pub notes: Seq<char>,
}

impl View for ArmyBuild {
    type V = ArmyBuildView;

    open spec fn view(&self) -> ArmyBuildView {
        ArmyBuildView {
            file: self.file@,
            file_stem: self.file_stem@,
            original_file: self.original_file@,
            created_on: self.created_on,
            faction: self.faction,
            vs_faction: self.vs_faction,
            ca_game: self.ca_game,
            game_mod: self.game_mod@,
            created_by: self.created_by@,
            faction_str: self.faction_str@,
            vs_faction_str: self.vs_faction_str@,
            win_count: self.win_count,
            loss_count: self.loss_count,
            funds: self.funds,
            image_files: self.image_files@.map_values(|s: String| s@),
            notes: self.notes@,
        }
    }
}

/// The funds that a new build starts with.
pub const DEFAULT_FUNDS: u32 = 12400;

/// The most funds that a build can be given.
pub const MAXFUNDS: u32 = 100000;

/// A build of which nothing is known but when it was made.
pub open spec fn blank_build(created_on: Timestamp) -> ArmyBuildView {
    ArmyBuildView {
        file: Seq::empty(),
        file_stem: Seq::empty(),
        original_file: Seq::empty(),
        created_on,
        faction: Wh2Factions::UNKNOWN,
        vs_faction: Wh2Factions::UNKNOWN,
        ca_game: CaGame::Warhammer2,
        game_mod: Seq::empty(),
        created_by: Seq::empty(),
        faction_str: Seq::empty(),
        vs_faction_str: Seq::empty(),
        win_count: 0,
        loss_count: 0,
        funds: DEFAULT_FUNDS,
        image_files: Seq::empty(),
        notes: Seq::empty(),
    }
}

impl Clone for ArmyBuild {
    fn clone(&self) -> (r: Self)
        ensures
            r@ == self@,
    {
        let r = ArmyBuild {
            file: self.file.clone(),
            file_stem: self.file_stem.clone(),
            original_file: self.original_file.clone(),
            created_on: self.created_on,
            faction: self.faction,
            vs_faction: self.vs_faction,
            ca_game: self.ca_game,
            game_mod: self.game_mod.clone(),
            created_by: self.created_by.clone(),
            faction_str: self.faction_str.clone(),
            vs_faction_str: self.vs_faction_str.clone(),
            win_count: self.win_count,
            loss_count: self.loss_count,
            funds: self.funds,
            image_files: clone_texts(&self.image_files),
            notes: self.notes.clone(),
        };
        r
    }
}

impl PartialEq for ArmyBuild {
    /// Two builds are the same build when they have the same file stem,
    /// whatever else differs.
    fn eq(&self, other: &Self) -> (r: bool) {
        self.file_stem == other.file_stem
    }
}

impl vstd::std_specs::cmp::PartialEqSpecImpl for ArmyBuild {
    open spec fn obeys_eq_spec() -> bool {
        true
    }

    open spec fn eq_spec(&self, other: &Self) -> bool {
        self.file_stem@ == other.file_stem@
    }
}

impl Eq for ArmyBuild {

}

impl std::hash::Hash for ArmyBuild {
    /// `Hash::hash` of the file stem: builds that are the same build hash
    /// alike. Nothing else is known of what goes into the hasher.
    #[verifier::external_body]
    fn hash<H: std::hash::Hasher>(&self, state: &mut H) {
        self.file_stem.hash(state);
    }
}

impl Default for ArmyBuild {
    /// A blank build made now.
    fn default() -> (r: Self)
        ensures
            r@ == blank_build(r.created_on),
    {
        ArmyBuild::blank(utc_now())
    }
}

/// The columns under which a build is listed.
#[derive(Clone, Copy, Debug, PartialEq, Eq, Structural)]
pub enum ArmyBuildDisplayColumns {
    Name,
    Faction,
    VsFaction,
    Funds,
    CreatedBy,
    GameMod,
    WinPercent,
    NumGamesPlayed,
    CreatedOn,
    Notes,
}

/// The heading of a column.
pub open spec fn column_title(display_col: ArmyBuildDisplayColumns) -> Seq<char> {
    match display_col {
        ArmyBuildDisplayColumns::Name => "Name"@,
        ArmyBuildDisplayColumns::Faction => "Faction"@,
        ArmyBuildDisplayColumns::VsFaction => "Vs Faction"@,
        ArmyBuildDisplayColumns::Funds => "Funds"@,
        ArmyBuildDisplayColumns::CreatedBy => "Created By"@,
        ArmyBuildDisplayColumns::GameMod => "Mod"@,
        ArmyBuildDisplayColumns::WinPercent => "% W"@,
        ArmyBuildDisplayColumns::NumGamesPlayed => "Played"@,
        ArmyBuildDisplayColumns::CreatedOn => "Date Created"@,
        ArmyBuildDisplayColumns::Notes => "Notes"@,
    }
}

/// The columns in the order in which they are shown.
pub open spec fn column_order() -> Seq<ArmyBuildDisplayColumns> {
    seq![
        ArmyBuildDisplayColumns::Name,
        ArmyBuildDisplayColumns::Faction,
        ArmyBuildDisplayColumns::VsFaction,
        ArmyBuildDisplayColumns::Funds,
        ArmyBuildDisplayColumns::CreatedBy,
        ArmyBuildDisplayColumns::GameMod,
        ArmyBuildDisplayColumns::WinPercent,
        ArmyBuildDisplayColumns::NumGamesPlayed,
        ArmyBuildDisplayColumns::CreatedOn,
        ArmyBuildDisplayColumns::Notes,
    ]
}

/// All columns, in the order in which they are shown.
pub fn all_display_columns() -> (r: Vec<ArmyBuildDisplayColumns>)
    ensures
        r@ == column_order(),
{
    let r = vec![
        ArmyBuildDisplayColumns::Name,
        ArmyBuildDisplayColumns::Faction,
        ArmyBuildDisplayColumns::VsFaction,
        ArmyBuildDisplayColumns::Funds,
        ArmyBuildDisplayColumns::CreatedBy,
        ArmyBuildDisplayColumns::GameMod,
        ArmyBuildDisplayColumns::WinPercent,
        ArmyBuildDisplayColumns::NumGamesPlayed,
        ArmyBuildDisplayColumns::CreatedOn,
        ArmyBuildDisplayColumns::Notes,
    ];
    assert(r@ =~= column_order());
    r
}

/// The heading of a column.
pub fn get_army_build_display_column_title(display_col: &ArmyBuildDisplayColumns) -> (r: String)
    ensures
        r@ == column_title(*display_col),
{
    match display_col {
        ArmyBuildDisplayColumns::Name => String::from_str("Name"),
        ArmyBuildDisplayColumns::Faction => String::from_str("Faction"),
        ArmyBuildDisplayColumns::VsFaction => String::from_str("Vs Faction"),
        ArmyBuildDisplayColumns::Funds => String::from_str("Funds"),
        ArmyBuildDisplayColumns::CreatedBy => String::from_str("Created By"),
        ArmyBuildDisplayColumns::GameMod => String::from_str("Mod"),
        ArmyBuildDisplayColumns::WinPercent => String::from_str("% W"),
        ArmyBuildDisplayColumns::NumGamesPlayed => String::from_str("Played"),
        ArmyBuildDisplayColumns::CreatedOn => String::from_str("Date Created"),
        ArmyBuildDisplayColumns::Notes => String::from_str("Notes"),
    }
}

/// What a build shows under a column. The share of games won is a ratio
/// that the caller writes out; it comes in as `win_percent`.
pub open spec fn display_string(
    build: ArmyBuildView,
    display_col: ArmyBuildDisplayColumns,
    win_percent: Seq<char>,
) -> Seq<char> {
    match display_col {
        ArmyBuildDisplayColumns::Name => build.file_stem,
        ArmyBuildDisplayColumns::Faction => build.faction_str,
        ArmyBuildDisplayColumns::Funds => decimal(build.funds as nat),
        ArmyBuildDisplayColumns::VsFaction => build.vs_faction_str,
        ArmyBuildDisplayColumns::CreatedBy => build.created_by,
        ArmyBuildDisplayColumns::GameMod => build.game_mod,
        ArmyBuildDisplayColumns::WinPercent => win_percent,
        ArmyBuildDisplayColumns::NumGamesPlayed => decimal(
            (build.win_count + build.loss_count) as nat,
        ),
        ArmyBuildDisplayColumns::CreatedOn => text_or_empty(build.created_on.text()),
        ArmyBuildDisplayColumns::Notes => "..."@,
    }
}

impl ArmyBuild {
    /// A build of which nothing is known but when it was made.
    pub fn blank(created_on: Timestamp) -> (r: Self)
        ensures
            r@ == blank_build(created_on),
    {
        let r = ArmyBuild {
            file: String::new(),
            file_stem: String::new(),
            original_file: String::new(),
            created_on,
            faction: Wh2Factions::UNKNOWN,
            vs_faction: Wh2Factions::UNKNOWN,
            ca_game: CaGame::Warhammer2,
            game_mod: String::new(),
            created_by: String::new(),
            faction_str: String::new(),
            vs_faction_str: String::new(),
            win_count: 0,
            loss_count: 0,
            funds: DEFAULT_FUNDS,
            image_files: Vec::new(),
            notes: String::new(),
        };
        assert(r@.image_files =~= Seq::empty());
        r
    }

    /// The name under which the build is shown and by which it is told from
    /// other builds.
    pub fn display_name(&self) -> (r: &String)
        ensures
            r@ == self@.file_stem,
    {
        &self.file_stem
    }

    /// The number of games played with the build, where it fits the
    /// counter's type.
    pub fn get_games_played_count(&self) -> (r: u32)
        requires
            self.win_count + self.loss_count <= u32::MAX,
        ensures
            r == self.win_count + self.loss_count,
    {
        self.win_count + self.loss_count
    }

    /// What the build shows under a column. The share of games won is a
    /// ratio that the caller writes out; it comes in as `win_percent`.
    pub fn get_display_string(&self, display_col: &ArmyBuildDisplayColumns, win_percent: &str) -> (r:
        String)
        ensures
            r@ == display_string(self@, *display_col, win_percent@),
    {
        match display_col {
            ArmyBuildDisplayColumns::Name => self.file_stem.clone(),
            ArmyBuildDisplayColumns::Faction => self.faction_str.clone(),
            ArmyBuildDisplayColumns::Funds => decimal_text(self.funds as u64),
            ArmyBuildDisplayColumns::VsFaction => self.vs_faction_str.clone(),
            ArmyBuildDisplayColumns::CreatedBy => self.created_by.clone(),
            ArmyBuildDisplayColumns::GameMod => self.game_mod.clone(),
            ArmyBuildDisplayColumns::WinPercent => String::from_str(win_percent),
            ArmyBuildDisplayColumns::NumGamesPlayed => decimal_text(
                self.win_count as u64 + self.loss_count as u64,
            ),
            ArmyBuildDisplayColumns::CreatedOn => self.created_on.format_or_empty(),
            ArmyBuildDisplayColumns::Notes => String::from_str("..."),
        }
    }
}

/// The sizes of army that the games offer.
#[derive(Clone, Copy, Debug, PartialEq, Eq, Structural)]
pub enum FundsLevel {
    Small,
    Medium,
    Large,
    Ultra,
    Custom,
}

/// The funds of a level; a custom level has none of its own.
pub open spec fn funds_of(funds_level: FundsLevel) -> u32 {
    match funds_level {
        FundsLevel::Small => 5000,
        FundsLevel::Medium => 8600,
        FundsLevel::Large => 12400,
        FundsLevel::Ultra => 17000,
        FundsLevel::Custom => 0,
    }
}

/// The level whose funds these are, and `Custom` where they are no level's.
pub open spec fn level_of(funds: u32) -> FundsLevel {
    if funds == 5000 {
        FundsLevel::Small
    } else if funds == 8600 {
        FundsLevel::Medium
    } else if funds == 12400 {
        FundsLevel::Large
    } else if funds == 17000 {
        FundsLevel::Ultra
    } else {
        FundsLevel::Custom
    }
}

/// The funds of a level, the same for every game; a custom level has none
/// of its own.
pub fn get_funds_amount(funds_level: FundsLevel, ca_game: &CaGame) -> (r: u32)
    ensures
        r == funds_of(funds_level),
{
    match funds_level {
        FundsLevel::Small => 5000,
        FundsLevel::Medium => 8600,
        FundsLevel::Large => 12400,
        FundsLevel::Ultra => 17000,
        _ => 0,
    }
}

/// The level whose funds these are, the same for every game, and `Custom`
/// where they are no level's.
pub fn get_funds_level(funds: u32, ca_game: &CaGame) -> (r: FundsLevel)
    ensures
        r == level_of(funds),
{
    match funds {
        5000 => FundsLevel::Small,
        8600 => FundsLevel::Medium,
        12400 => FundsLevel::Large,
        17000 => FundsLevel::Ultra,
        _ => FundsLevel::Custom,
    }
}

/// Taking the level of given funds and then the funds of that level gives
/// the funds back, unless the level is `Custom`; and the level of a level's
/// funds is that level, for every level but `Custom`.
pub proof fn lemma_funds_levels(funds: u32, funds_level: FundsLevel)
    ensures
        level_of(funds) != FundsLevel::Custom ==> funds_of(level_of(funds)) == funds,
        funds_level != FundsLevel::Custom ==> level_of(funds_of(funds_level)) == funds_level,
{
}

/// Sets a build's funds to those of a level; a custom level leaves them as
/// they are.
pub fn apply_funds_level(army_build: &mut ArmyBuild, funds_level: FundsLevel)
    ensures
        final(army_build)@ == (ArmyBuildView {
            funds: if funds_level == FundsLevel::Custom {
                old(army_build).funds
            } else {
                funds_of(funds_level)
            },
            ..old(army_build)@
        }),
{
    if funds_level != FundsLevel::Custom {
        army_build.funds = get_funds_amount(funds_level, &army_build.ca_game);
    }
}

} // verus!
