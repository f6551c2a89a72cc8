use crate::paths::{home_dir, join_path, joined_path, path_components, split_path};
use vstd::hash_map::StringHashMap;
use vstd::prelude::*;
use vstd::string::StringExecFns;

verus! {

/// The games of the series whose army setups can be managed.
#[derive(Clone, Copy, Debug, PartialEq, Eq, Hash, Structural)]
pub enum CaGame {
    Attila,
    Empire,
    Medieval2,
    Napoleon,
    Rome,
    Rome2,
    RomeRemastered,
    Shogun2,
    ThreeKingdoms,
    ThronesOfBritannia,
    Warhammer,
    Warhammer2,
}

/// The folder of a game below the publisher's folder.
pub open spec fn subfolder(ca_game: CaGame) -> Seq<char> {
    match ca_game {
        CaGame::Attila => "todo"@,
        CaGame::Empire => "Empire"@,
        CaGame::Medieval2 => "todo"@,
        CaGame::Napoleon => "Napolean"@,
        CaGame::Rome => "todo"@,
        CaGame::Rome2 => "Rome2"@,
        CaGame::RomeRemastered => "todo"@,
        CaGame::Shogun2 => "Shogun2"@,
        CaGame::ThreeKingdoms => "ThreeKingdoms"@,
        CaGame::ThronesOfBritannia => "todo"@,
        CaGame::Warhammer => "Warhammer"@,
        CaGame::Warhammer2 => "Warhammer2"@,
    }
}

/// The title under which a game is shown.
pub open spec fn title(ca_game: CaGame) -> Seq<char> {
    match ca_game {
        CaGame::Attila => "Attila"@,
        CaGame::Empire => "Empire"@,
        CaGame::Medieval2 => "Medieval 2"@,
        CaGame::Napoleon => "Napolean"@,
        CaGame::Rome => "Rome"@,
        CaGame::Rome2 => "Rome 2"@,
        CaGame::RomeRemastered => "Rome Remastered"@,
        CaGame::Shogun2 => "Shogun 2"@,
        CaGame::ThreeKingdoms => "Three Kingdoms"@,
        CaGame::ThronesOfBritannia => "Thrones of Britannia"@,
        CaGame::Warhammer => "Warhammer"@,
        CaGame::Warhammer2 => "Warhammer 2"@,
    }
}

/// The extension of a game's army setup files, which is also the name of
/// the folder that holds them.
pub open spec fn army_setup_ext(ca_game: CaGame) -> Seq<char> {
    match ca_game {
        CaGame::Empire => "battle_preferences"@,
        _ => "army_setup"@,
    }
}

/// The name of the folder, below a game's own, that holds its army setups.
pub open spec fn army_setups_subfolder(ca_game: CaGame) -> Seq<char> {
    match ca_game {
        CaGame::Empire => "battle_preferences"@,
        _ => "army_setups"@,
    }
}

/// The games in the order of their declaration.
pub open spec fn game_order() -> Seq<CaGame> {
    seq![
        CaGame::Attila,
        CaGame::Empire,
        CaGame::Medieval2,
        CaGame::Napoleon,
        CaGame::Rome,
        CaGame::Rome2,
        CaGame::RomeRemastered,
        CaGame::Shogun2,
        CaGame::ThreeKingdoms,
        CaGame::ThronesOfBritannia,
        CaGame::Warhammer,
        CaGame::Warhammer2,
    ]
}

/// The place of a game in `game_order`.
pub open spec fn game_index(ca_game: CaGame) -> int {
    match ca_game {
        CaGame::Attila => 0,
        CaGame::Empire => 1,
        CaGame::Medieval2 => 2,
        CaGame::Napoleon => 3,
        CaGame::Rome => 4,
        CaGame::Rome2 => 5,
        CaGame::RomeRemastered => 6,
        CaGame::Shogun2 => 7,
        CaGame::ThreeKingdoms => 8,
        CaGame::ThronesOfBritannia => 9,
        CaGame::Warhammer => 10,
        CaGame::Warhammer2 => 11,
    }
}

/// Every game stands once in `game_order`, at the place `game_index` gives.
pub proof fn lemma_game_order(ca_game: CaGame)
    ensures
        game_order().len() == 12,
        0 <= game_index(ca_game) < 12,
        game_order()[game_index(ca_game)] == ca_game,
        forall|k: int| 0 <= k < 12 ==> game_index(#[trigger] game_order()[k]) == k,
{
    let o = game_order();
    assert(game_index(o[0]) == 0 && game_index(o[1]) == 1 && game_index(o[2]) == 2);
    assert(game_index(o[3]) == 3 && game_index(o[4]) == 4 && game_index(o[5]) == 5);
    assert(game_index(o[6]) == 6 && game_index(o[7]) == 7 && game_index(o[8]) == 8);
    assert(game_index(o[9]) == 9 && game_index(o[10]) == 10 && game_index(o[11]) == 11);
}

/// All games, in the order of their declaration.
pub fn all_ca_games() -> (r: Vec<CaGame>)
    ensures
        r@ == game_order(),
{
    let r = vec![
        CaGame::Attila,
        CaGame::Empire,
        CaGame::Medieval2,
        CaGame::Napoleon,
        CaGame::Rome,
        CaGame::Rome2,
        CaGame::RomeRemastered,
        CaGame::Shogun2,
        CaGame::ThreeKingdoms,
        CaGame::ThronesOfBritannia,
        CaGame::Warhammer,
        CaGame::Warhammer2,
    ];
    assert(r@ =~= game_order());
    r
}

/// The folder of a game below the publisher's folder.
pub fn get_ca_game_subfolder(ca_game: &CaGame) -> (r: String)
    ensures
        r@ == subfolder(*ca_game),
{
    let game_subdir = match ca_game {
        CaGame::Attila => "todo",
        CaGame::Empire => "Empire",
        CaGame::Medieval2 => "todo",
        CaGame::Napoleon => "Napolean",
        CaGame::Rome => "todo",
        CaGame::Rome2 => "Rome2",
        CaGame::RomeRemastered => "todo",
        CaGame::Shogun2 => "Shogun2",
        CaGame::ThreeKingdoms => "ThreeKingdoms",
        CaGame::ThronesOfBritannia => "todo",
        CaGame::Warhammer => "Warhammer",
        CaGame::Warhammer2 => "Warhammer2",
    };
    String::from_str(game_subdir)
}

/// The title under which a game is shown.
pub fn get_ca_game_title(ca_game: &CaGame) -> (r: String)
    ensures
        r@ == title(*ca_game),
{
    let game_title = match ca_game {
        CaGame::Attila => "Attila",
        CaGame::Empire => "Empire",
        CaGame::Medieval2 => "Medieval 2",
        CaGame::Napoleon => "Napolean",
        CaGame::Rome => "Rome",
        CaGame::Rome2 => "Rome 2",
        CaGame::RomeRemastered => "Rome Remastered",
        CaGame::Shogun2 => "Shogun 2",
        CaGame::ThreeKingdoms => "Three Kingdoms",
        CaGame::ThronesOfBritannia => "Thrones of Britannia",
        CaGame::Warhammer => "Warhammer",
        CaGame::Warhammer2 => "Warhammer 2",
    };
    String::from_str(game_title)
}

/// The extension of a game's army setup files.
pub fn get_ca_game_army_setup_ext(ca_game: CaGame) -> (r: String)
    ensures
        r@ == army_setup_ext(ca_game),
{
    match ca_game {
        CaGame::Empire => String::from_str("battle_preferences"),
        _ => String::from_str("army_setup"),
    }
}

/// The games entered under the names of their folders, the first `n` of
/// `game_order` in turn; a later game takes the place of an earlier one with
/// the same folder.
pub open spec fn games_by_subfolder_of_first(n: int) -> Map<Seq<char>, CaGame>
    decreases n,
{
    if n <= 0 {
        Map::empty()
    } else {
        games_by_subfolder_of_first(n - 1).insert(
            subfolder(game_order()[n - 1]),
            game_order()[n - 1],
        )
    }
}

/// All games entered under the names of their folders.
pub open spec fn games_by_subfolder() -> Map<Seq<char>, CaGame> {
    games_by_subfolder_of_first(12)
}

/// Every game's folder has an entry, and the entry is a game with that
/// folder.
pub proof fn lemma_games_by_subfolder(ca_game: CaGame)
    ensures
        games_by_subfolder().contains_key(subfolder(ca_game)),
        subfolder(games_by_subfolder()[subfolder(ca_game)]) == subfolder(ca_game),
        games_by_subfolder()[subfolder(CaGame::Warhammer2)] == CaGame::Warhammer2,
{
    lemma_game_order(ca_game);
    lemma_games_by_subfolder_of_first(12, game_index(ca_game));
}

proof fn lemma_games_by_subfolder_of_first(n: int, k: int)
    requires
        0 <= k < n <= 12,
    ensures
        games_by_subfolder_of_first(n).contains_key(subfolder(game_order()[k])),
        subfolder(games_by_subfolder_of_first(n)[subfolder(game_order()[k])]) == subfolder(
            game_order()[k],
        ),
    decreases n,
{
    if k < n - 1 {
        lemma_games_by_subfolder_of_first(n - 1, k);
    }
}

/// The texts of a list of path components.
pub open spec fn component_texts(components: Seq<String>) -> Seq<Seq<char>> {
    components.map_values(|s: String| s@)
}

/// Whether one of the given path components is the folder of the game.
pub fn has_game_component(components: &Vec<String>, ca_game: &CaGame) -> (r: bool)
    ensures
        r == component_texts(components@).contains(subfolder(*ca_game)),
{
    let game_subdir = get_ca_game_subfolder(ca_game);
    let ghost names = component_texts(components@);
    let mut i: usize = 0;
    while i < components.len()
        invariant
            i <= components.len(),
            names == component_texts(components@),
            game_subdir@ == subfolder(*ca_game),
            forall|j: int| 0 <= j < i ==> names[j] != subfolder(*ca_game),
        decreases components.len() - i,
    {
        if components[i] == game_subdir {
            assert(names[i as int] == subfolder(*ca_game));
            return true;
        }
        i += 1;
    }
    false
}

/// Whether one of the components of a path is the folder of the game.
pub fn is_ca_game_folder(folder_str: &str, ca_game: &CaGame) -> (r: bool)
    ensures
        r == path_components(folder_str@).contains(subfolder(*ca_game)),
{
    let parts = split_path(folder_str);
    assert(component_texts(parts@) =~= path_components(folder_str@));
    has_game_component(&parts, ca_game)
}

/// The games by the names of their folders.
pub fn get_subdir_str_ca_game_map() -> (r: StringHashMap<CaGame>)
    ensures
        r@ == games_by_subfolder(),
{
    let mut m: StringHashMap<CaGame> = StringHashMap::new();
    let games = all_ca_games();
    let mut i: usize = 0;
    while i < games.len()
        invariant
            i <= games.len(),
            games@ == game_order(),
            games.len() == 12,
            m@ == games_by_subfolder_of_first(i as int),
        decreases games.len() - i,
    {
        let subdir_str = get_ca_game_subfolder(&games[i]);
        m.insert(subdir_str, games[i]);
        i += 1;
    }
    m
}

/// The place of the first component, counted from `from`, that is the name
/// of a game's folder.
pub open spec fn first_game_component_from(components: Seq<Seq<char>>, from: int) -> Option<int>
    decreases components.len() - from,
{
    if from < 0 || from >= components.len() {
        None
    } else if games_by_subfolder().contains_key(components[from]) {
        Some(from)
    } else {
        first_game_component_from(components, from + 1)
    }
}

/// The game that path components tell of: the game entered under the
/// first component that is the name of a game's folder, and the second
/// Warhammer game where no component is.
pub open spec fn game_of_components(components: Seq<Seq<char>>) -> CaGame {
    match first_game_component_from(components, 0) {
        Some(i) => games_by_subfolder()[components[i]],
        None => CaGame::Warhammer2,
    }
}

/// The game that the path of a folder tells of.
pub open spec fn game_of_folder_name(folder: Seq<char>) -> CaGame {
    game_of_components(path_components(folder))
}

proof fn lemma_games_by_subfolder_keys(n: int, name: Seq<char>)
    requires
        0 <= n <= 12,
        games_by_subfolder_of_first(n).contains_key(name),
    ensures
        subfolder(games_by_subfolder_of_first(n)[name]) == name,
    decreases n,
{
    if n > 0 && subfolder(game_order()[n - 1]) != name {
        lemma_games_by_subfolder_keys(n - 1, name);
    }
}

proof fn lemma_first_game_component_from(components: Seq<Seq<char>>, from: int)
    requires
        0 <= from,
    ensures
        match first_game_component_from(components, from) {
            Some(i) => from <= i < components.len() && games_by_subfolder().contains_key(
                components[i],
            ) && forall|j: int|
                from <= j < i ==> !games_by_subfolder().contains_key(#[trigger] components[j]),
            None => forall|j: int|
                from <= j < components.len() ==> !games_by_subfolder().contains_key(
                    #[trigger] components[j],
                ),
        },
    decreases components.len() - from,
{
    if from < components.len() && !games_by_subfolder().contains_key(components[from]) {
        lemma_first_game_component_from(components, from + 1);
    }
}

/// The game that path components tell of has the first component that is
/// the name of any game's folder for its own folder; where no component is
/// the name of a game's folder, it is the second Warhammer game.
pub proof fn lemma_game_of_components(components: Seq<Seq<char>>)
    ensures
        match first_game_component_from(components, 0) {
            Some(i) => {
                &&& 0 <= i < components.len()
                &&& subfolder(game_of_components(components)) == components[i]
                &&& forall|j: int, g: CaGame|
                    0 <= j < i ==> #[trigger] components[j] != #[trigger] subfolder(g)
            },
            None => {
                &&& game_of_components(components) == CaGame::Warhammer2
                &&& forall|j: int, g: CaGame|
                    0 <= j < components.len() ==> #[trigger] components[j] != #[trigger] subfolder(
                        g,
                    )
            },
        },
{
    lemma_first_game_component_from(components, 0);
    assert forall|g: CaGame| games_by_subfolder().contains_key(#[trigger] subfolder(g)) by {
        lemma_games_by_subfolder(g);
    }
    match first_game_component_from(components, 0) {
        Some(i) => {
            lemma_games_by_subfolder_keys(12, components[i]);
        },
        None => {},
    }
}

/// A path with the folder of a game among its components, and before it no
/// component that is the name of a game's folder, tells of a game with that
/// folder.
pub proof fn lemma_game_of_components_named(components: Seq<Seq<char>>, i: int, ca_game: CaGame)
    requires
        0 <= i < components.len(),
        components[i] == subfolder(ca_game),
        forall|j: int, g: CaGame| 0 <= j < i ==> #[trigger] components[j] != #[trigger] subfolder(g),
    ensures
        subfolder(game_of_components(components)) == subfolder(ca_game),
{
    lemma_game_of_components(components);
    lemma_first_game_component_from(components, 0);
    lemma_games_by_subfolder(ca_game);
    let first = first_game_component_from(components, 0);
    assert(first is Some);
    let k = first->0;
    if k < i {
        assert(components[k] == subfolder(game_of_components(components)));
    }
}

/// The game that the given path components tell of.
pub fn game_from_components(components: &Vec<String>) -> (r: CaGame)
    ensures
        r == game_of_components(component_texts(components@)),
{
    let subdir_str_ca_game_map = get_subdir_str_ca_game_map();
    let ghost names = component_texts(components@);
    let mut i: usize = 0;
    while i < components.len()
        invariant
            i <= components.len(),
            names == component_texts(components@),
            subdir_str_ca_game_map@ == games_by_subfolder(),
            first_game_component_from(names, 0) == first_game_component_from(names, i as int),
        decreases components.len() - i,
    {
        assert(names[i as int] == components@[i as int]@);
        match subdir_str_ca_game_map.get(components[i].as_str()) {
            Some(found) => {
                return *found;
            },
            None => {},
        }
        i += 1;
    }
    CaGame::Warhammer2
}

/// The game that the path of a folder tells of: the game whose folder is
/// among the components of the path, and the second Warhammer game where
/// none is.
pub fn get_ca_game_from_folder_name(folder_str: &str) -> (r: CaGame)
    ensures
        r == game_of_folder_name(folder_str@),
{
    let parts = split_path(folder_str);
    assert(component_texts(parts@) =~= path_components(folder_str@));
    game_from_components(&parts)
}

/// The publisher's folder below a user's home folder.
pub open spec fn publisher_folder() -> Seq<char> {
    "AppData\\Roaming\\The Creative Assembly"@
}

/// The folder in which a game keeps its army setups, below a given home
/// folder.
pub open spec fn army_setups_folder_under(home: Seq<char>, ca_game: CaGame) -> Seq<char> {
    joined_path(
        joined_path(joined_path(home, publisher_folder()), subfolder(ca_game)),
        army_setups_subfolder(ca_game),
    )
}

/// What is said where the environment names no home folder.
pub open spec fn no_home_message() -> Seq<char> {
    "dirs::home_dir() None"@
}

/// The folder in which a game keeps its army setups, below a given home
/// folder.
pub fn ca_game_army_setups_folder_under(home: &str, ca_game: CaGame) -> (r: String)
    ensures
        r@ == army_setups_folder_under(home@, ca_game),
{
    let army_setups_subdir = match ca_game {
        CaGame::Empire => "battle_preferences",
        _ => "army_setups",
    };
    let game_subdir = get_ca_game_subfolder(&ca_game);
    let p = join_path(home, "AppData\\Roaming\\The Creative Assembly");
    let p = join_path(p.as_str(), game_subdir.as_str());
    join_path(p.as_str(), army_setups_subdir)
}

/// The folder in which a game keeps its army setups, below the home folder
/// that the environment names; an error where it names none.
pub fn get_ca_game_army_setups_folder(ca_game: CaGame) -> (r: Result<String, String>)
    ensures
        match r {
            Ok(p) => exists|home: Seq<char>| p@ == #[trigger] army_setups_folder_under(home, ca_game),
            Err(e) => e@ == no_home_message(),
        },
{
    match home_dir() {
        Some(home) => {
            let p = ca_game_army_setups_folder_under(home.as_str(), ca_game);
            assert(p@ == army_setups_folder_under(home@, ca_game));
            Ok(p)
        },
        None => Err(String::from_str("dirs::home_dir() None")),
    }
}

/// The game that the user has picked.
#[derive(Debug)]
pub struct GameSelector {
    pub ca_game: CaGame,
}

impl Default for GameSelector {
    fn default() -> (r: Self)
        ensures
            r.ca_game == CaGame::Warhammer2,
    {
        GameSelector { ca_game: CaGame::Warhammer2 }
    }
}

} // verus!
