use warboss_waaghit::army_build::ArmyBuild;
use warboss_waaghit::ca_game::CaGame;
use warboss_waaghit::catalog::{clone_builds, filter_builds, Catalog, GameCatalogs};
use warboss_waaghit::factions::{parse_faction, parse_vs_faction, Wh2Factions};
use warboss_waaghit::ymd_hms_dash_format::Timestamp;

fn build(stem: &str, file: &str) -> ArmyBuild {
    let mut b = ArmyBuild::blank(Timestamp { secs: 0, nanos: 0 });
    b.file_stem = String::from(stem);
    b.file = String::from(file);
    b.faction = parse_faction(&b.file_stem);
    b.vs_faction = parse_vs_faction(&b.file_stem);
    b
}

fn names(builds: &Vec<ArmyBuild>) -> Vec<String> {
    builds.iter().map(|b| b.file_stem.clone()).collect()
}

fn strings(v: &[&str]) -> Vec<String> {
    v.iter().map(|s| String::from(*s)).collect()
}

fn sample() -> Vec<ArmyBuild> {
    vec![
        build("skv vs he", "1"),
        build("BM vs TK", "2"),
        build("bm vs he rush", "3"),
        build("Zebra", "4"),
        build("apple", "5"),
        build("HE vs BM", "6"),
    ]
}

#[test]
fn a_new_catalog_is_empty() {
    let c = Catalog::new();
    assert_eq!(c.len(), 0);
    assert!(c.is_empty());
    assert!(!c.contains_name(""));
}

#[test]
fn the_first_build_of_a_name_is_kept() {
    let mut c = Catalog::new();
    assert!(c.insert(build("one", "first")));
    assert!(c.insert(build("two", "second")));
    assert!(!c.insert(build("one", "third")));
    assert_eq!(c.len(), 2);
    assert_eq!(names(c.builds()), strings(&["one", "two"]));
    assert_eq!(c.builds()[0].file, "first");
    assert!(c.contains_name("one"));
    assert!(c.contains(&build("two", "other")));
    assert!(!c.contains_name("One"));
    assert!(!c.contains_name("three"));
}

#[test]
fn entering_a_build_twice_changes_nothing_the_second_time() {
    let mut c = Catalog::from_builds(&sample());
    let before = names(c.builds());
    assert!(!c.insert(build("apple", "again")));
    assert_eq!(names(c.builds()), before);
    assert_eq!(c.builds()[4].file, "5");
}

#[test]
fn entering_builds_is_a_union_on_names() {
    let mut c = Catalog::new();
    c.insert(build("a", "1"));
    c.insert(build("b", "2"));
    let more = vec![build("b", "3"), build("c", "4"), build("c", "5"), build("a", "6")];
    let added = c.extend(&more);
    assert_eq!(added, 1);
    assert_eq!(names(c.builds()), strings(&["a", "b", "c"]));
    assert_eq!(c.builds()[1].file, "2");
    assert_eq!(c.builds()[2].file, "4");
    assert_eq!(c.extend(&more), 0);
    assert_eq!(c.extend(&Vec::new()), 0);
    assert_eq!(c.len(), 3);
}

#[test]
fn a_catalog_of_builds_drops_later_builds_of_a_name() {
    let c = Catalog::from_builds(&vec![build("x", "1"), build("y", "2"), build("x", "3")]);
    assert_eq!(names(c.builds()), strings(&["x", "y"]));
    assert_eq!(c.builds()[0].file, "1");
    let copy = c.clone();
    assert_eq!(names(copy.builds()), strings(&["x", "y"]));
}

#[test]
fn builds_are_copied_with_their_fields() {
    let copy = clone_builds(&sample());
    assert_eq!(names(&copy), names(&sample()));
    assert_eq!(copy[3].file, "4");
}

#[test]
fn a_search_for_everything_shows_every_build_by_name() {
    let shown = filter_builds(&sample(), Wh2Factions::ALL, Wh2Factions::ALL, "");
    assert_eq!(
        names(&shown),
        strings(&["BM vs TK", "HE vs BM", "Zebra", "apple", "bm vs he rush", "skv vs he"])
    );
    assert_eq!(shown[0].file, "2");
}

#[test]
fn a_search_by_faction_shows_that_faction_only() {
    let shown = filter_builds(&sample(), Wh2Factions::BM, Wh2Factions::ALL, "");
    assert_eq!(names(&shown), strings(&["BM vs TK", "bm vs he rush"]));
    let shown = filter_builds(&sample(), Wh2Factions::TK, Wh2Factions::ALL, "");
    assert!(shown.is_empty());
    let shown = filter_builds(&sample(), Wh2Factions::UNKNOWN, Wh2Factions::ALL, "");
    assert_eq!(names(&shown), strings(&["Zebra", "apple"]));
}

#[test]
fn a_search_by_opposing_faction_shows_that_faction_only() {
    let shown = filter_builds(&sample(), Wh2Factions::ALL, Wh2Factions::HE, "");
    assert_eq!(names(&shown), strings(&["bm vs he rush", "skv vs he"]));
    let shown = filter_builds(&sample(), Wh2Factions::BM, Wh2Factions::HE, "");
    assert_eq!(names(&shown), strings(&["bm vs he rush"]));
    let shown = filter_builds(&sample(), Wh2Factions::SKV, Wh2Factions::TK, "");
    assert!(shown.is_empty());
}

#[test]
fn a_search_by_words_ignores_letter_case() {
    let shown = filter_builds(&sample(), Wh2Factions::ALL, Wh2Factions::ALL, "VS HE");
    assert_eq!(names(&shown), strings(&["bm vs he rush", "skv vs he"]));
    let shown = filter_builds(&sample(), Wh2Factions::ALL, Wh2Factions::ALL, "zEb");
    assert_eq!(names(&shown), strings(&["Zebra"]));
    let shown = filter_builds(&sample(), Wh2Factions::ALL, Wh2Factions::ALL, "nothing");
    assert!(shown.is_empty());
    let shown = filter_builds(&sample(), Wh2Factions::BM, Wh2Factions::ALL, "rush");
    assert_eq!(names(&shown), strings(&["bm vs he rush"]));
}

#[test]
fn what_is_shown_is_ordered_by_name_with_capitals_first() {
    let builds = vec![build("b", "1"), build("a", "2"), build("B", "3"), build("ab", "4"), build("", "5")];
    let shown = filter_builds(&builds, Wh2Factions::ALL, Wh2Factions::ALL, "");
    assert_eq!(names(&shown), strings(&["", "B", "a", "ab", "b"]));
    let shown = filter_builds(&Vec::new(), Wh2Factions::ALL, Wh2Factions::ALL, "");
    assert!(shown.is_empty());
}

#[test]
fn builds_under_one_name_stay_in_their_order() {
    let builds = vec![build("same", "1"), build("other", "2"), build("same", "3")];
    let shown = filter_builds(&builds, Wh2Factions::ALL, Wh2Factions::ALL, "");
    assert_eq!(names(&shown), strings(&["other", "same", "same"]));
    assert_eq!(shown[1].file, "1");
    assert_eq!(shown[2].file, "3");
}

#[test]
fn games_have_a_catalog_or_none() {
    let mut all = GameCatalogs::new();
    assert!(all.is_empty());
    assert!(all.get(CaGame::Warhammer2).is_none());
    let added = all.add_builds(CaGame::Rome2, &vec![build("a", "1"), build("a", "2"), build("b", "3")]);
    assert_eq!(added, 2);
    assert!(!all.is_empty());
    assert!(all.get(CaGame::Warhammer2).is_none());
    assert_eq!(names(all.get(CaGame::Rome2).unwrap().builds()), strings(&["a", "b"]));
    let added = all.add_builds(CaGame::Rome2, &vec![build("b", "4"), build("c", "5")]);
    assert_eq!(added, 1);
    assert_eq!(names(all.get(CaGame::Rome2).unwrap().builds()), strings(&["a", "b", "c"]));
    assert_eq!(all.get(CaGame::Rome2).unwrap().builds()[1].file, "3");
}

#[test]
fn a_game_is_given_a_catalog_in_place_of_its_own() {
    let mut all = GameCatalogs::new();
    all.insert(CaGame::Attila, Catalog::from_builds(&vec![build("x", "1")]));
    all.insert(CaGame::Warhammer2, Catalog::from_builds(&vec![build("y", "2")]));
    all.insert(CaGame::Attila, Catalog::from_builds(&vec![build("z", "3")]));
    assert_eq!(names(all.get(CaGame::Attila).unwrap().builds()), strings(&["z"]));
    assert_eq!(names(all.get(CaGame::Warhammer2).unwrap().builds()), strings(&["y"]));
    assert!(all.get(CaGame::Rome).is_none());
}

#[test]
fn asking_for_the_builds_of_a_game_gives_it_a_catalog() {
    let mut all = GameCatalogs::new();
    let c = all.get_or_insert_empty(CaGame::Shogun2);
    assert!(c.is_empty());
    assert!(all.get(CaGame::Shogun2).is_some());
    assert!(!all.is_empty());
    all.add_builds(CaGame::Shogun2, &vec![build("a", "1")]);
    let c = all.get_or_insert_empty(CaGame::Shogun2);
    assert_eq!(names(c.builds()), strings(&["a"]));
}
