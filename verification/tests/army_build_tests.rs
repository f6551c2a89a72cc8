use std::hash::{Hash, Hasher};
use warboss_waaghit::advanced_search_container::AdvancedSearch;
use warboss_waaghit::army_build::{
    all_display_columns, apply_funds_level, get_army_build_display_column_title, get_funds_amount,
    get_funds_level, ArmyBuild, ArmyBuildDisplayColumns, FundsLevel, DEFAULT_FUNDS, MAXFUNDS,
};
use warboss_waaghit::ca_game::CaGame;
use warboss_waaghit::factions::Wh2Factions;
use warboss_waaghit::paths::split_file_name;
use warboss_waaghit::text::{clone_texts, decimal_text};
use warboss_waaghit::ymd_hms_dash_format::{Timestamp, YMD_HMS_FORMAT};

fn epoch() -> Timestamp {
    Timestamp { secs: 0, nanos: 0 }
}

#[test]
fn column_titles() {
    let want = [
        "Name",
        "Faction",
        "Vs Faction",
        "Funds",
        "Created By",
        "Mod",
        "% W",
        "Played",
        "Date Created",
        "Notes",
    ];
    let columns = all_display_columns();
    assert_eq!(columns.len(), want.len());
    for (i, c) in columns.iter().enumerate() {
        assert_eq!(get_army_build_display_column_title(c), want[i]);
    }
}

#[test]
fn funds_of_levels() {
    let g = CaGame::Warhammer2;
    assert_eq!(get_funds_amount(FundsLevel::Small, &g), 5000);
    assert_eq!(get_funds_amount(FundsLevel::Medium, &g), 8600);
    assert_eq!(get_funds_amount(FundsLevel::Large, &g), 12400);
    assert_eq!(get_funds_amount(FundsLevel::Ultra, &g), 17000);
    assert_eq!(get_funds_amount(FundsLevel::Custom, &g), 0);
    assert_eq!(get_funds_amount(FundsLevel::Large, &CaGame::Rome), 12400);
}

#[test]
fn levels_of_funds() {
    let g = CaGame::Warhammer2;
    assert_eq!(get_funds_level(5000, &g), FundsLevel::Small);
    assert_eq!(get_funds_level(8600, &g), FundsLevel::Medium);
    assert_eq!(get_funds_level(12400, &g), FundsLevel::Large);
    assert_eq!(get_funds_level(17000, &g), FundsLevel::Ultra);
    assert_eq!(get_funds_level(0, &g), FundsLevel::Custom);
    assert_eq!(get_funds_level(12401, &g), FundsLevel::Custom);
    assert_eq!(get_funds_level(MAXFUNDS, &g), FundsLevel::Custom);
}

#[test]
fn level_and_funds_round_trip() {
    let g = CaGame::Warhammer2;
    for level in [FundsLevel::Small, FundsLevel::Medium, FundsLevel::Large, FundsLevel::Ultra] {
        assert_eq!(get_funds_level(get_funds_amount(level, &g), &g), level);
    }
}

#[test]
fn a_level_sets_the_funds_and_custom_leaves_them() {
    let mut build = ArmyBuild::blank(epoch());
    build.funds = 777;
    apply_funds_level(&mut build, FundsLevel::Custom);
    assert_eq!(build.funds, 777);
    apply_funds_level(&mut build, FundsLevel::Ultra);
    assert_eq!(build.funds, 17000);
}

#[test]
fn a_blank_build() {
    let t = Timestamp { secs: 5, nanos: 6 };
    let b = ArmyBuild::blank(t);
    assert_eq!(b.file, "");
    assert_eq!(b.file_stem, "");
    assert_eq!(b.original_file, "");
    assert_eq!(b.created_on, t);
    assert_eq!(b.faction, Wh2Factions::UNKNOWN);
    assert_eq!(b.vs_faction, Wh2Factions::UNKNOWN);
    assert_eq!(b.ca_game, CaGame::Warhammer2);
    assert_eq!(b.funds, DEFAULT_FUNDS);
    assert_eq!(b.funds, 12400);
    assert_eq!(b.win_count, 0);
    assert_eq!(b.loss_count, 0);
    assert!(b.image_files.is_empty());
    assert_eq!(b.notes, "");
}

#[test]
fn the_default_build_is_blank_and_made_now() {
    let b = ArmyBuild::default();
    assert_eq!(b.file_stem, "");
    assert_eq!(b.funds, 12400);
    assert_eq!(b.faction, Wh2Factions::UNKNOWN);
    assert!(b.created_on.secs > 1_600_000_000);
    assert!(b.created_on.nanos < 1_000_000_000);
}

#[test]
fn builds_are_the_same_by_their_stem_alone() {
    let mut a = ArmyBuild::blank(epoch());
    let mut b = ArmyBuild::blank(Timestamp { secs: 9, nanos: 9 });
    a.file_stem = String::from("one");
    b.file_stem = String::from("one");
    b.faction = Wh2Factions::BM;
    b.funds = 1;
    assert!(a == b);
    assert_eq!(a.display_name(), "one");
    b.file_stem = String::from("One");
    assert!(a != b);
}

#[test]
fn a_clone_keeps_every_field() {
    let mut a = ArmyBuild::blank(Timestamp { secs: 3, nanos: 4 });
    a.file = String::from("f");
    a.file_stem = String::from("s");
    a.original_file = String::from("o");
    a.faction = Wh2Factions::GS;
    a.vs_faction = Wh2Factions::HE;
    a.ca_game = CaGame::Rome2;
    a.game_mod = String::from("m");
    a.created_by = String::from("c");
    a.faction_str = String::from("fs");
    a.vs_faction_str = String::from("vfs");
    a.win_count = 1;
    a.loss_count = 2;
    a.funds = 3;
    a.image_files = vec![String::from("i1"), String::from("i2")];
    a.notes = String::from("n");
    let b = a.clone();
    assert_eq!(b.file, "f");
    assert_eq!(b.file_stem, "s");
    assert_eq!(b.original_file, "o");
    assert_eq!(b.created_on, Timestamp { secs: 3, nanos: 4 });
    assert_eq!(b.faction, Wh2Factions::GS);
    assert_eq!(b.vs_faction, Wh2Factions::HE);
    assert_eq!(b.ca_game, CaGame::Rome2);
    assert_eq!(b.game_mod, "m");
    assert_eq!(b.created_by, "c");
    assert_eq!(b.faction_str, "fs");
    assert_eq!(b.vs_faction_str, "vfs");
    assert_eq!((b.win_count, b.loss_count, b.funds), (1, 2, 3));
    assert_eq!(b.image_files, vec![String::from("i1"), String::from("i2")]);
    assert_eq!(b.notes, "n");
}

#[test]
fn what_a_build_shows_under_each_column() {
    let mut a = ArmyBuild::blank(Timestamp { secs: 1431648000, nanos: 0 });
    a.file_stem = String::from("BM vs TK");
    a.faction_str = String::from("Beastmen");
    a.vs_faction_str = String::from("Tomb Kings");
    a.created_by = String::from("boss");
    a.game_mod = String::from("vanilla");
    a.win_count = 3;
    a.loss_count = 4;
    a.funds = 12400;
    a.notes = String::from("long notes");
    let show = |c: ArmyBuildDisplayColumns| a.get_display_string(&c, "0.8");
    assert_eq!(show(ArmyBuildDisplayColumns::Name), "BM vs TK");
    assert_eq!(show(ArmyBuildDisplayColumns::Faction), "Beastmen");
    assert_eq!(show(ArmyBuildDisplayColumns::VsFaction), "Tomb Kings");
    assert_eq!(show(ArmyBuildDisplayColumns::Funds), "12400");
    assert_eq!(show(ArmyBuildDisplayColumns::CreatedBy), "boss");
    assert_eq!(show(ArmyBuildDisplayColumns::GameMod), "vanilla");
    assert_eq!(show(ArmyBuildDisplayColumns::WinPercent), "0.8");
    assert_eq!(show(ArmyBuildDisplayColumns::NumGamesPlayed), "7");
    assert_eq!(show(ArmyBuildDisplayColumns::CreatedOn), "2015-05-15 00:00:00");
    assert_eq!(show(ArmyBuildDisplayColumns::Notes), "...");
}

#[test]
fn games_played_are_counted_beyond_the_counters_range_when_shown() {
    let mut a = ArmyBuild::blank(epoch());
    a.win_count = u32::MAX;
    a.loss_count = u32::MAX;
    assert_eq!(a.get_display_string(&ArmyBuildDisplayColumns::NumGamesPlayed, ""), "8589934590");
    a.win_count = 2;
    a.loss_count = 5;
    assert_eq!(a.get_games_played_count(), 7);
}

#[test]
fn instants_are_written_with_dashes_and_colons() {
    assert_eq!(YMD_HMS_FORMAT, "%Y-%m-%d %H:%M:%S");
    assert_eq!(epoch().format(), Some(String::from("1970-01-01 00:00:00")));
    let t = Timestamp { secs: 1431648000, nanos: 999_999_999 };
    assert_eq!(t.format(), Some(String::from("2015-05-15 00:00:00")));
    let t = Timestamp { secs: 1626876131, nanos: 0 };
    assert_eq!(t.format(), Some(String::from("2021-07-21 14:02:11")));
    let t = Timestamp { secs: -1, nanos: 0 };
    assert_eq!(t.format(), Some(String::from("1969-12-31 23:59:59")));
    assert_eq!(t.format_or_empty(), "1969-12-31 23:59:59");
}

#[test]
fn instants_beyond_the_calendar_have_no_text() {
    let t = Timestamp { secs: i64::MAX, nanos: 0 };
    assert_eq!(t.format(), None);
    assert_eq!(t.format_or_empty(), "");
    let t = Timestamp { secs: 0, nanos: 2_000_000_000 };
    assert_eq!(t.format(), None);
}

#[test]
fn numbers_in_decimal() {
    assert_eq!(decimal_text(0), "0");
    assert_eq!(decimal_text(7), "7");
    assert_eq!(decimal_text(10), "10");
    assert_eq!(decimal_text(12400), "12400");
    assert_eq!(decimal_text(1234567890), "1234567890");
    assert_eq!(decimal_text(u64::MAX), "18446744073709551615");
}

#[test]
fn texts_are_copied() {
    let v = vec![String::from("a"), String::new(), String::from("ccc")];
    assert_eq!(clone_texts(&v), v);
    assert_eq!(clone_texts(&Vec::new()), Vec::<String>::new());
}

#[test]
fn file_names_split_at_their_last_dot() {
    let split = |s: &str| split_file_name(s);
    assert_eq!(split("BM vs TK.army_setup"), (String::from("BM vs TK"), Some(String::from("army_setup"))));
    assert_eq!(split("a.b.c"), (String::from("a.b"), Some(String::from("c"))));
    assert_eq!(split("plain"), (String::from("plain"), None));
    assert_eq!(split(".hidden"), (String::from(".hidden"), None));
    assert_eq!(split(".hidden.txt"), (String::from(".hidden"), Some(String::from("txt"))));
    assert_eq!(split("trailing."), (String::from("trailing"), Some(String::new())));
    assert_eq!(split(""), (String::new(), None));
    assert_eq!(split("."), (String::from("."), None));
    assert_eq!(split("é.ü"), (String::from("é"), Some(String::from("ü"))));
}

#[test]
fn the_default_search_asks_for_nothing() {
    let s = AdvancedSearch::default();
    assert_eq!(s.name, "");
    assert!(s.check_after_created);
    assert_eq!(s.faction, Wh2Factions::UNKNOWN);
    assert_eq!(s.vs_faction, Wh2Factions::UNKNOWN);
    assert_eq!(s.ca_game, CaGame::Warhammer2);
    assert_eq!(s.funds, 12400);
    assert!(s.created_on_search.secs > 1_600_000_000);
    let s = AdvancedSearch::blank(Timestamp { secs: 1, nanos: 2 });
    assert_eq!(s.created_on_search, Timestamp { secs: 1, nanos: 2 });
    assert_eq!(s.game_mod, "");
}

fn hash_of(b: &ArmyBuild) -> u64 {
    let mut h = std::collections::hash_map::DefaultHasher::new();
    b.hash(&mut h);
    h.finish()
}

#[test]
fn builds_hash_by_their_stem_alone() {
    let mut a = ArmyBuild::blank(epoch());
    let mut b = ArmyBuild::blank(Timestamp { secs: 9, nanos: 9 });
    a.file_stem = String::from("one");
    b.file_stem = String::from("one");
    b.funds = 1;
    b.file = String::from("elsewhere");
    assert_eq!(hash_of(&a), hash_of(&b));
    b.file_stem = String::from("two");
    assert!(hash_of(&a) != hash_of(&b));
    let mut set = std::collections::HashSet::new();
    a.file = String::from("first");
    assert!(set.insert(a.clone()));
    let mut again = a.clone();
    again.file = String::from("second");
    assert!(!set.insert(again));
    assert_eq!(set.iter().next().unwrap().file, "first");
}
