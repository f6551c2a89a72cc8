use crate::army_build::DEFAULT_FUNDS;
use crate::ca_game::CaGame;
use crate::factions::Wh2Factions;
use crate::ymd_hms_dash_format::{utc_now, Timestamp};
use vstd::prelude::*;

verus! {

/// What a search in detail asks of a build.
#[derive(Debug)]
pub struct AdvancedSearch {
    pub name: String,
    pub created_on_search: Timestamp,
    pub check_after_created: bool,
    pub faction: Wh2Factions,
    pub vs_faction: Wh2Factions,
    pub ca_game: CaGame,
    pub game_mod: String,
    pub created_by: String,
    pub faction_str: String,
    pub vs_faction_str: String,
    pub funds: u32,
}

impl AdvancedSearch {
    /// Whether a search asks for nothing in particular: builds of the
    /// second Warhammer game with the usual funds, made after the time that
    /// it holds.
    pub open spec fn is_blank(&self) -> bool {
        &&& self.name@.len() == 0
        &&& self.check_after_created
        &&& self.faction == Wh2Factions::UNKNOWN
        &&& self.vs_faction == Wh2Factions::UNKNOWN
        &&& self.ca_game == CaGame::Warhammer2
        &&& self.game_mod@.len() == 0
        &&& self.created_by@.len() == 0
        &&& self.faction_str@.len() == 0
        &&& self.vs_faction_str@.len() == 0
        &&& self.funds == DEFAULT_FUNDS
    }

    /// A search that asks for nothing in particular, for builds made after
    /// a given time.
    pub fn blank(created_on_search: Timestamp) -> (r: Self)
        ensures
            r.is_blank(),
            r.created_on_search == created_on_search,
    {
        Self {
            name: String::new(),
            faction: Wh2Factions::UNKNOWN,
            vs_faction: Wh2Factions::UNKNOWN,
            created_on_search,
            check_after_created: true,
            ca_game: CaGame::Warhammer2,
            game_mod: String::new(),
            created_by: String::new(),
            faction_str: String::new(),
            vs_faction_str: String::new(),
            funds: DEFAULT_FUNDS,
        }
    }
}

impl Default for AdvancedSearch {
    /// A search that asks for nothing in particular, for builds made after
    /// now.
    fn default() -> (r: Self)
        ensures
            r.is_blank(),
    {
        AdvancedSearch::blank(utc_now())
    }
}

} // verus!
