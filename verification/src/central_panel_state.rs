use crate::ca_game::{get_ca_game_title, title, CaGame};
use vstd::prelude::*;
use vstd::string::StringExecFns;

verus! {

/// The panels that the middle of the window can show.
#[derive(Clone, Copy, Debug, PartialEq, Eq, Structural)]
pub enum CentralPanelState {
    OwaaghSettings,
    GameSelection,
    BuildManager,
    TierList,
    Replays,
    Resources,
    Acknowledgements,
}

/// The panels in the order in which the side bar lists them.
pub open spec fn panel_order() -> Seq<CentralPanelState> {
    seq![
        CentralPanelState::OwaaghSettings,
        CentralPanelState::GameSelection,
        CentralPanelState::BuildManager,
        CentralPanelState::TierList,
        CentralPanelState::Replays,
        CentralPanelState::Resources,
        CentralPanelState::Acknowledgements,
    ]
}

/// All panels, in the order in which the side bar lists them.
pub fn all_central_panel_states() -> (r: Vec<CentralPanelState>)
    ensures
        r@ == panel_order(),
{
    let r = vec![
        CentralPanelState::OwaaghSettings,
        CentralPanelState::GameSelection,
        CentralPanelState::BuildManager,
        CentralPanelState::TierList,
        CentralPanelState::Replays,
        CentralPanelState::Resources,
        CentralPanelState::Acknowledgements,
    ];
    assert(r@ =~= panel_order());
    r
}

/// What the window shows: the game that is picked, and the panel.
#[derive(Debug)]
pub struct AppState {
    pub ca_game: CaGame,
    pub central_panel_state: CentralPanelState,
}

impl Default for AppState {
    fn default() -> (r: Self)
        ensures
            r.ca_game == CaGame::Warhammer2,
            r.central_panel_state == CentralPanelState::GameSelection,
    {
        AppState {
            ca_game: CaGame::Warhammer2,
            central_panel_state: CentralPanelState::GameSelection,
        }
    }
}

/// The side bar's label for a panel; the panel in which the game is picked
/// is labelled with the title of the game that is picked.
pub open spec fn side_bar_title(ca_game: CaGame, central_panel_state: CentralPanelState) -> Seq<
    char,
> {
    match central_panel_state {
        CentralPanelState::OwaaghSettings => "Settings"@,
        CentralPanelState::GameSelection => title(ca_game),
        CentralPanelState::BuildManager => "Build Boss"@,
        CentralPanelState::TierList => "Tier Lists"@,
        CentralPanelState::Replays => "Replays"@,
        CentralPanelState::Resources => "Resources"@,
        CentralPanelState::Acknowledgements => "Acknowledgments"@,
    }
}

impl AppState {
    /// The side bar's label for a panel.
    pub fn get_side_bar_title(&self, central_panel_state: &CentralPanelState) -> (r: String)
        ensures
            r@ == side_bar_title(self.ca_game, *central_panel_state),
    {
        match central_panel_state {
            CentralPanelState::OwaaghSettings => String::from_str("Settings"),
            CentralPanelState::GameSelection => get_ca_game_title(&self.ca_game),
            CentralPanelState::BuildManager => String::from_str("Build Boss"),
            CentralPanelState::TierList => String::from_str("Tier Lists"),
            CentralPanelState::Replays => String::from_str("Replays"),
            CentralPanelState::Resources => String::from_str("Resources"),
            CentralPanelState::Acknowledgements => String::from_str("Acknowledgments"),
        }
    }
}

} // verus!
