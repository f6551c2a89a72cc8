use warboss_waaghit::army_build::ArmyBuild;
use warboss_waaghit::army_setups_folder::{
    ArmySetupsFolder, FolderEntry, FolderListing, PathKind,
};
use warboss_waaghit::army_setups_manager::{
    append_default_army_builds, default_copies, get_ca_army_builds, insert_result,
    ArmySetupsManager, CopyJob, EditError, InsertError, LoadPlan,
};
use warboss_waaghit::ca_game::CaGame;
use warboss_waaghit::catalog::{Catalog, GameCatalogs};
use warboss_waaghit::factions::{parse_faction, parse_vs_faction, Wh2Factions};
use warboss_waaghit::ymd_hms_dash_format::Timestamp;

const GAME_FOLDER: &str =
    "C:\\Users\\Boss\\AppData\\Roaming\\The Creative Assembly\\Warhammer2\\army_setups";

fn sep() -> String {
    std::path::MAIN_SEPARATOR.to_string()
}

fn now() -> Timestamp {
    Timestamp { secs: 1_700_000_000, nanos: 0 }
}

fn build(stem: &str, file: &str) -> ArmyBuild {
    let mut b = ArmyBuild::blank(Timestamp { secs: 1431648000, nanos: 0 });
    b.file_stem = String::from(stem);
    b.file = String::from(file);
    b.faction = parse_faction(&b.file_stem);
    b.vs_faction = parse_vs_faction(&b.file_stem);
    b
}

fn names(builds: &Vec<ArmyBuild>) -> Vec<String> {
    builds.iter().map(|b| b.file_stem.clone()).collect()
}

fn strings(v: &[&str]) -> Vec<String> {
    v.iter().map(|s| String::from(*s)).collect()
}

fn file(name: &str) -> FolderEntry {
    FolderEntry {
        path: format!("/src/{}", name),
        file_name: String::from(name),
        is_file: true,
        created_on: Some(Timestamp { secs: 1431648000, nanos: 0 }),
    }
}

fn folder(entries: Vec<FolderEntry>) -> FolderListing {
    FolderListing { kind: PathKind::Directory, entries }
}

fn game_folder() -> Result<String, String> {
    Ok(String::from(GAME_FOLDER))
}

fn manager(builds: Vec<ArmyBuild>) -> ArmySetupsManager {
    let listing = folder(vec![file("a.army_setup")]);
    let mut catalogs = GameCatalogs::new();
    if !builds.is_empty() {
        catalogs.add_builds(CaGame::Warhammer2, &builds);
    }
    ArmySetupsManager::new(
        ArmySetupsFolder::new(GAME_FOLDER, &listing),
        ArmySetupsFolder::new(GAME_FOLDER, &listing),
        catalogs,
    )
}

#[test]
fn a_new_manager() {
    let m = manager(vec![build("b", "1"), build("a", "2")]);
    assert_eq!(m.selected_game, CaGame::Warhammer2);
    assert_eq!(m.get_selected_game(), "Warhammer 2");
    assert_eq!(names(&m.display_builds), strings(&["b", "a"]));
    assert_eq!(m.search_string, "");
    assert_eq!(m.search_mod, "");
    assert_eq!(m.search_faction, Wh2Factions::ALL);
    assert_eq!(m.search_vs_faction, Wh2Factions::ALL);
    assert_eq!(m.selected_army_build.file_stem, "");
    assert_eq!(m.edit_build.file_stem, "");
    assert_eq!(m.selected_display_build_indx, usize::MAX);
    assert_eq!(m.insert_name, "AAAAAAGHOWAAAAAAA");
    assert_eq!(m.load_folder.folder_string, GAME_FOLDER);
    assert_eq!(m.insert_folder.folder_string, GAME_FOLDER);
    assert!(!m.has_selection());
    let m = manager(vec![]);
    assert!(m.display_builds.is_empty());
    assert!(m.army_builds.is_empty());
}

#[test]
fn the_selected_game_can_be_set() {
    let mut m = manager(vec![]);
    m.set_selected_game(CaGame::Rome2);
    assert_eq!(m.selected_game, CaGame::Rome2);
    assert_eq!(m.get_selected_game(), "Rome 2");
    assert_eq!(m.insert_name, "AAAAAAGHOWAAAAAAA");
}

#[test]
fn a_name_to_insert_under_must_not_be_empty() {
    let mut m = manager(vec![]);
    m.insert_name = String::new();
    assert_eq!(m.valid_insert_name(), Err(String::from("Oy ya got to write something here")));
}

#[test]
fn a_name_to_insert_under_must_not_begin_with_a_dot() {
    let mut m = manager(vec![]);
    m.insert_name = String::from(".hidden");
    assert_eq!(
        m.valid_insert_name(),
        Err(String::from("Can't start a name with special characters"))
    );
    m.insert_name = String::from(".");
    assert!(m.valid_insert_name().is_err());
}

#[test]
fn another_name_to_insert_under_is_valid() {
    let mut m = manager(vec![]);
    assert_eq!(m.valid_insert_name(), Ok(String::from("AAAAAAGHOWAAAAAAA")));
    m.insert_name = String::from("a.b");
    assert_eq!(m.valid_insert_name(), Ok(String::from("a.b")));
    m.insert_name = String::from(" ");
    assert_eq!(m.valid_insert_name(), Ok(String::from(" ")));
    m.insert_name = String::from("ünïcode");
    assert_eq!(m.valid_insert_name(), Ok(String::from("ünïcode")));
}

#[test]
fn inserting_copies_the_selected_file_under_the_new_name() {
    let mut m = manager(vec![build("BM vs TK", "/src/BM vs TK.army_setup")]);
    assert!(m.select_display_build(0));
    m.insert_name = String::from("fresh");
    let job = m.insert_army_given(PathKind::Directory, &game_folder(), PathKind::File).unwrap();
    assert_eq!(job.from, "/src/BM vs TK.army_setup");
    assert_eq!(job.to, format!("{}/fresh.army_setup", GAME_FOLDER));
}

#[test]
fn inserting_for_another_game_uses_its_extension() {
    let mut m = manager(vec![build("x", "/src/x.army_setup")]);
    m.select_display_build(0);
    m.set_selected_game(CaGame::Empire);
    m.insert_name = String::from("n");
    let job = m.insert_army_given(PathKind::Directory, &game_folder(), PathKind::File).unwrap();
    assert_eq!(job.to, format!("{}/n.battle_preferences", GAME_FOLDER));
}

#[test]
fn inserting_into_an_unfit_folder_fails_first() {
    let mut m = manager(vec![build("x", "/src/x.army_setup")]);
    m.select_display_build(0);
    m.insert_name = String::new();
    let r = m.insert_army_given(PathKind::Missing, &game_folder(), PathKind::Missing);
    assert!(matches!(r, Err(InsertError::InvalidDestination)));
    let r = m.insert_army_given(PathKind::File, &game_folder(), PathKind::File);
    assert!(matches!(r, Err(InsertError::InvalidDestination)));
    let r = m.insert_army_given(PathKind::Directory, &Err(String::from("no home")), PathKind::File);
    assert!(matches!(r, Err(InsertError::InvalidDestination)));
    m.insert_folder.folder_string = String::from("C:\\Downloads");
    m.insert_name = String::from("fine");
    let r = m.insert_army_given(PathKind::Directory, &game_folder(), PathKind::File);
    assert!(matches!(r, Err(InsertError::InvalidDestination)));
}

#[test]
fn inserting_under_an_invalid_name_fails() {
    let mut m = manager(vec![build("x", "/src/x.army_setup")]);
    m.select_display_build(0);
    m.insert_name = String::new();
    let r = m.insert_army_given(PathKind::Directory, &game_folder(), PathKind::Missing);
    assert!(matches!(r, Err(InsertError::InvalidName)));
    m.insert_name = String::from(".x");
    let r = m.insert_army_given(PathKind::Directory, &game_folder(), PathKind::File);
    assert!(matches!(r, Err(InsertError::InvalidName)));
}

#[test]
fn inserting_a_build_whose_file_went_missing_after_the_scan_fails() {
    let listing = folder(vec![file("BM vs TK.army_setup")]);
    let catalogs = get_ca_army_builds(
        &vec![None, None, None, None, None, None, None, None, None, None, None, Some(listing)],
        now(),
    );
    let f = ArmySetupsFolder::new(GAME_FOLDER, &folder(vec![]));
    let mut m = ArmySetupsManager::new(f.clone(), f, catalogs);
    assert!(m.select_display_build(0));
    assert_eq!(m.selected_army_build.file, "/src/BM vs TK.army_setup");
    m.insert_name = String::from("copy");
    let r = m.insert_army_given(PathKind::Directory, &game_folder(), PathKind::Missing);
    assert!(matches!(r, Err(InsertError::SourceMissing)));
    let r = m.insert_army_given(PathKind::Directory, &game_folder(), PathKind::Directory);
    assert!(matches!(r, Err(InsertError::SourceMissing)));
    let r = m.insert_army_given(PathKind::Directory, &game_folder(), PathKind::File);
    assert!(r.is_ok());
}

#[test]
fn inserting_with_the_environments_home_never_fits_a_folder_elsewhere() {
    let mut m = manager(vec![build("x", "/src/x.army_setup")]);
    m.select_display_build(0);
    m.insert_folder.folder_string = String::from("/definitely/not/the/game");
    let r = m.insert_army(PathKind::Directory, PathKind::File);
    assert!(matches!(r, Err(InsertError::InvalidDestination)));
}

#[test]
fn a_failed_copy_is_told_with_its_reason() {
    assert!(insert_result(Ok(())).is_ok());
    match insert_result(Err(String::from("disk full"))) {
        Err(InsertError::CopyFailed(reason)) => assert_eq!(reason, "disk full"),
        _ => panic!("the copy failed"),
    }
}

#[test]
fn the_display_follows_the_search() {
    let mut m = manager(vec![
        build("skv vs he", "1"),
        build("BM vs TK", "2"),
        build("bm vs he", "3"),
        build("plain", "4"),
    ]);
    m.update_display_builds();
    assert_eq!(names(&m.display_builds), strings(&["BM vs TK", "bm vs he", "plain", "skv vs he"]));
    m.search_faction = Wh2Factions::BM;
    m.update_display_builds();
    assert_eq!(names(&m.display_builds), strings(&["BM vs TK", "bm vs he"]));
    m.search_vs_faction = Wh2Factions::HE;
    m.update_display_builds();
    assert_eq!(names(&m.display_builds), strings(&["bm vs he"]));
    m.search_faction = Wh2Factions::ALL;
    m.search_string = String::from("SKV");
    m.update_display_builds();
    assert_eq!(names(&m.display_builds), strings(&["skv vs he"]));
}

#[test]
fn factions_count_for_every_game() {
    let mut m = manager(vec![]);
    m.set_selected_game(CaGame::Rome2);
    m.army_builds.add_builds(CaGame::Rome2, &vec![build("bm vs tk", "1"), build("legion", "2")]);
    m.update_display_builds();
    assert_eq!(names(&m.display_builds), strings(&["bm vs tk", "legion"]));
    m.search_faction = Wh2Factions::BM;
    m.update_display_builds();
    assert_eq!(names(&m.display_builds), strings(&["bm vs tk"]));
    m.search_vs_faction = Wh2Factions::HE;
    m.update_display_builds();
    assert!(m.display_builds.is_empty());
    m.search_faction = Wh2Factions::ALL;
    m.search_vs_faction = Wh2Factions::ALL;
    m.search_string = String::from("LEG");
    m.update_display_builds();
    assert_eq!(names(&m.display_builds), strings(&["legion"]));
}

#[test]
fn showing_changes_nothing_but_what_is_shown() {
    let mut m = manager(vec![]);
    assert!(m.army_builds.is_empty());
    m.search_string = String::from("x");
    m.update_display_builds();
    assert!(m.display_builds.is_empty());
    assert!(m.army_builds.is_empty());
    assert!(m.army_builds.get(CaGame::Warhammer2).is_none());
    assert_eq!(m.search_string, "x");
    assert_eq!(m.insert_name, "AAAAAAGHOWAAAAAAA");
    let mut m = manager(vec![build("b", "1"), build("a", "2")]);
    m.update_display_builds();
    assert_eq!(names(m.army_builds.get(CaGame::Warhammer2).unwrap().builds()), strings(&["b", "a"]));
    assert_eq!(names(&m.display_builds), strings(&["a", "b"]));
}

#[test]
fn asking_the_manager_for_the_builds_of_a_game_gives_it_a_catalog() {
    let mut m = manager(vec![]);
    let c = m.get_game_army_builds(CaGame::Attila);
    assert!(c.is_empty());
    assert!(m.army_builds.get(CaGame::Attila).is_some());
}

#[test]
fn a_row_that_is_shown_can_be_selected() {
    let mut m = manager(vec![build("b", "1"), build("a", "2")]);
    assert!(!m.select_display_build(2));
    assert_eq!(m.selected_display_build_indx, usize::MAX);
    assert!(m.select_display_build(1));
    assert_eq!(m.selected_army_build.file_stem, "a");
    assert_eq!(m.edit_build.file_stem, "a");
    assert_eq!(m.edit_build.file, "2");
    assert_eq!(m.selected_display_build_indx, 1);
    assert!(m.has_selection());
}

#[test]
fn an_edit_to_a_taken_name_is_refused() {
    let mut m = manager(vec![build("b", "1"), build("a", "2")]);
    m.select_display_build(0);
    m.edit_build.file_stem = String::from("a");
    m.edit_build.notes = String::from("edited");
    assert!(m.edit_name_collides());
    assert_eq!(m.apply_edits(), Err(EditError::NameTaken));
    assert_eq!(EditError::NameTaken.message(), "That name already exists, pick another");
    assert_eq!(m.selected_army_build.file_stem, "b");
    assert_eq!(m.selected_army_build.notes, "");
}

#[test]
fn an_edit_to_a_free_name_or_to_other_fields_is_taken() {
    let mut m = manager(vec![build("b", "1"), build("a", "2")]);
    m.select_display_build(0);
    m.edit_build.notes = String::from("edited");
    assert!(!m.edit_name_collides());
    assert_eq!(m.apply_edits(), Ok(()));
    assert_eq!(m.selected_army_build.notes, "edited");
    m.edit_build.file_stem = String::from("c");
    assert!(!m.edit_name_collides());
    assert_eq!(m.apply_edits(), Ok(()));
    assert_eq!(m.selected_army_build.file_stem, "c");
}

#[test]
fn the_folders_follow_the_games_own_folder() {
    let mut m = manager(vec![]);
    let listing = folder(vec![]);
    m.update_load_folder(&Err(String::from("no home")), &listing);
    assert_eq!(m.load_folder.folder_string, GAME_FOLDER);
    assert_eq!(m.load_folder.folder_error, "");
    m.update_load_folder(&Ok(String::from("/new")), &listing);
    assert_eq!(m.load_folder.folder_string, "/new");
    assert_eq!(m.load_folder.folder_error, "The folder got no '.army_setup' files");
    m.update_insert_folder(&Err(String::from("no home")), &listing);
    assert_eq!(m.insert_folder.folder_string, GAME_FOLDER);
    m.update_insert_folder(&Ok(String::from("/other")), &folder(vec![file("a.army_setup")]));
    assert_eq!(m.insert_folder.folder_string, "/other");
    assert_eq!(m.insert_folder.folder_error, "");
}

#[test]
fn a_load_needs_a_folder_fit_to_load_from() {
    let m = manager(vec![]);
    let missing = FolderListing { kind: PathKind::Missing, entries: vec![] };
    let r = m.load_folder_to_owaagh_appdata(
        &missing,
        PathKind::Missing,
        &game_folder(),
        &Ok(String::from("/appdata")),
        now(),
    );
    assert_eq!(r.unwrap_err(), "load_folder_to_owaagh_appdata Dat path dont even exist!!");
    let a_file = FolderListing { kind: PathKind::File, entries: vec![] };
    let r = m.load_folder_to_owaagh_appdata(
        &a_file,
        PathKind::File,
        &game_folder(),
        &Ok(String::from("/appdata")),
        now(),
    );
    assert_eq!(r.unwrap_err(), "load_folder_to_owaagh_appdata Dats a file not a folder!!");
    let r = m.load_folder_to_owaagh_appdata(
        &folder(vec![]),
        PathKind::Directory,
        &game_folder(),
        &Ok(String::from("/appdata")),
        now(),
    );
    assert_eq!(
        r.unwrap_err(),
        "load_folder_to_owaagh_appdata The folder got no '.army_setup' files"
    );
}

#[test]
fn a_load_needs_the_programs_folder() {
    let m = manager(vec![]);
    let r = m.load_folder_to_owaagh_appdata(
        &folder(vec![file("a.army_setup")]),
        PathKind::Directory,
        &game_folder(),
        &Err(String::from("dirs::home_dir() None")),
        now(),
    );
    assert_eq!(r.unwrap_err(), "load_folder_to_owaagh_appdata dirs::home_dir() None");
    assert!(m.army_builds.is_empty());
}

#[test]
fn a_load_brings_in_the_builds_of_the_folder_loaded_from() {
    let mut m = manager(vec![]);
    m.insert_folder.folder_string = String::from("/nowhere");
    let listing = folder(vec![file("fresh.army_setup"), file("random.save")]);
    let plan = m
        .load_folder_to_owaagh_appdata(
            &listing,
            PathKind::Directory,
            &game_folder(),
            &Ok(String::from("appdata")),
            now(),
        )
        .unwrap();
    assert!(plan.dominant);
    assert_eq!(names(&plan.armies), strings(&["fresh"]));
    assert!(m.army_builds.is_empty());
    let said = m.finish_load(&plan, &vec![Ok(())]);
    assert_eq!(said, Ok(String::from("1 Builds Added")));
    let catalog = m.army_builds.get(CaGame::Warhammer2).unwrap();
    assert_eq!(names(catalog.builds()), strings(&["fresh"]));
    assert_eq!(catalog.builds()[0].file, format!("appdata{}fresh.army_setup", sep()));
    assert_eq!(catalog.builds()[0].original_file, "/src/fresh.army_setup");
}

#[test]
fn a_load_from_the_games_own_folder_stages_every_build_and_adds_the_new_ones() {
    let mut m = manager(vec![build("old", "/appdata/old.army_setup")]);
    let listing = folder(vec![file("old.army_setup"), file("new.army_setup"), file("more.army_setup")]);
    let plan = m
        .load_folder_to_owaagh_appdata(
            &listing,
            PathKind::Directory,
            &game_folder(),
            &Ok(String::from("appdata")),
            now(),
        )
        .unwrap();
    assert!(plan.dominant);
    assert_eq!(names(&plan.armies), strings(&["old", "new", "more"]));
    assert_eq!(plan.copies.len(), 3);
    assert_eq!(plan.copies[0].from, "/src/old.army_setup");
    assert_eq!(plan.copies[0].to, format!("appdata{}old.army_setup", sep()));
    assert_eq!(plan.copies[1].to, format!("appdata{}new.army_setup", sep()));
    let copied = vec![Ok(()), Ok(()), Err(String::from("denied"))];
    let said = m.finish_load(&plan, &copied);
    assert_eq!(said, Ok(String::from("2 Builds Added")));
    let catalog = m.army_builds.get(CaGame::Warhammer2).unwrap();
    assert_eq!(names(catalog.builds()), strings(&["old", "new", "more"]));
    assert_eq!(catalog.builds()[0].file, "/appdata/old.army_setup");
    assert_eq!(catalog.builds()[1].file, format!("appdata{}new.army_setup", sep()));
    assert_eq!(catalog.builds()[2].file, "/src/more.army_setup");
    let said = m.finish_load(&plan, &copied);
    assert_eq!(said, Ok(String::from("0 Builds Added")));
}

#[test]
fn a_load_from_another_folder_renames_what_is_taken_and_adds_every_build() {
    let mut m = manager(vec![build("old", "/appdata/old.army_setup")]);
    m.load_folder.folder_string = String::from("C:\\Downloads");
    let listing = folder(vec![file("old.army_setup"), file("new.army_setup")]);
    let plan = m
        .load_folder_to_owaagh_appdata(
            &listing,
            PathKind::Directory,
            &game_folder(),
            &Ok(String::from("appdata")),
            now(),
        )
        .unwrap();
    assert!(!plan.dominant);
    assert_eq!(names(&plan.armies), strings(&["old 2015-05-15 00:00:00", "new"]));
    assert_eq!(plan.copies[0].from, "/src/old.army_setup");
    assert_eq!(
        plan.copies[0].to,
        format!("appdata{}old 2015-05-15 00:00:00.army_setup", sep())
    );
    assert_eq!(plan.copies[1].from, "/src/new.army_setup");
    assert_eq!(plan.copies[1].to, format!("appdata{}new.army_setup", sep()));
    assert_eq!(names(m.army_builds.get(CaGame::Warhammer2).unwrap().builds()), strings(&["old"]));
    let said = m.finish_load(&plan, &vec![Ok(()), Ok(())]);
    assert_eq!(said, Ok(String::from("2 Builds Added")));
    let catalog = m.army_builds.get(CaGame::Warhammer2).unwrap();
    assert_eq!(
        names(catalog.builds()),
        strings(&["old", "old 2015-05-15 00:00:00", "new"])
    );
    assert_eq!(catalog.builds()[0].file, "/appdata/old.army_setup");
    assert_eq!(catalog.builds()[2].file, format!("appdata{}new.army_setup", sep()));
}

#[test]
fn a_load_from_another_folder_stops_at_a_copy_that_failed() {
    let mut m = manager(vec![build("old", "/appdata/old.army_setup")]);
    m.load_folder.folder_string = String::from("C:\\Downloads");
    let listing = folder(vec![file("old.army_setup"), file("new.army_setup")]);
    let plan = m
        .load_folder_to_owaagh_appdata(
            &listing,
            PathKind::Directory,
            &game_folder(),
            &Ok(String::from("appdata")),
            now(),
        )
        .unwrap();
    let said = m.finish_load(&plan, &vec![Ok(()), Err(String::from("disk full"))]);
    assert_eq!(said, Err(String::from("disk full for file_stem new")));
    let said = m.finish_load(&plan, &vec![Err(String::from("first")), Err(String::from("second"))]);
    assert_eq!(said, Err(String::from("first for file_stem old 2015-05-15 00:00:00")));
    assert_eq!(names(m.army_builds.get(CaGame::Warhammer2).unwrap().builds()), strings(&["old"]));
}

#[test]
fn a_load_for_another_game_goes_by_its_extension() {
    let mut m = manager(vec![]);
    m.set_selected_game(CaGame::Empire);
    let listing = folder(vec![file("a.army_setup"), file("b.battle_preferences")]);
    let plan = m
        .load_folder_to_owaagh_appdata(
            &listing,
            PathKind::Directory,
            &game_folder(),
            &Ok(String::from("appdata")),
            now(),
        )
        .unwrap();
    assert_eq!(names(&plan.armies), strings(&["b"]));
    assert_eq!(plan.copies[0].to, format!("appdata{}b.battle_preferences", sep()));
    assert_eq!(m.finish_load(&plan, &vec![Ok(())]), Ok(String::from("1 Builds Added")));
    assert!(m.army_builds.get(CaGame::Warhammer2).is_none());
    assert_eq!(names(m.army_builds.get(CaGame::Empire).unwrap().builds()), strings(&["b"]));
}

#[test]
fn an_empty_plan_adds_nothing() {
    let mut m = manager(vec![]);
    let plan = LoadPlan { dominant: true, armies: vec![], copies: vec![] };
    assert_eq!(m.finish_load(&plan, &vec![]), Ok(String::from("0 Builds Added")));
    assert!(m.army_builds.get(CaGame::Warhammer2).unwrap().is_empty());
}

#[test]
fn the_games_with_builds_get_catalogs() {
    let mut listings: Vec<Option<FolderListing>> = Vec::new();
    for _ in 0..12 {
        listings.push(None);
    }
    listings[1] = Some(folder(vec![file("e.battle_preferences"), file("x.army_setup")]));
    listings[5] = Some(folder(vec![file("random.save")]));
    listings[11] = Some(folder(vec![file("BM vs TK.army_setup"), file("b.army_setup")]));
    let catalogs = get_ca_army_builds(&listings, now());
    assert_eq!(names(catalogs.get(CaGame::Empire).unwrap().builds()), strings(&["e"]));
    assert!(catalogs.get(CaGame::Rome2).is_none());
    assert!(catalogs.get(CaGame::Attila).is_none());
    assert_eq!(
        names(catalogs.get(CaGame::Warhammer2).unwrap().builds()),
        strings(&["BM vs TK", "b"])
    );
    let catalogs = get_ca_army_builds(&Vec::new(), now());
    assert!(catalogs.is_empty());
}

#[test]
fn default_builds_are_staged_into_a_game_without_a_catalog() {
    let mut all = GameCatalogs::new();
    let defaults = Catalog::from_builds(&vec![build("d1", "/tmp/d1"), build("d2", "/tmp/d2")]);
    let copies = default_copies(CaGame::Rome2, &defaults, "appdata");
    assert_eq!(copies.len(), 2);
    assert_eq!(copies[0].from, "/tmp/d1");
    assert_eq!(copies[0].to, format!("appdata{}d1.army_setup", sep()));
    let copied = vec![Ok(()), Ok(())];
    let done = append_default_army_builds(&mut all, CaGame::Rome2, &defaults, &copies, &copied);
    assert!(done);
    let got = all.get(CaGame::Rome2).unwrap();
    assert_eq!(names(got.builds()), strings(&["d1", "d2"]));
    assert_eq!(got.builds()[0].file, format!("appdata{}d1.army_setup", sep()));
    assert_eq!(got.builds()[1].file, format!("appdata{}d2.army_setup", sep()));
}

#[test]
fn default_builds_go_into_a_catalog_until_a_copy_fails() {
    let mut all = GameCatalogs::new();
    all.add_builds(CaGame::Warhammer2, &vec![build("d2", "/mine/d2")]);
    let defaults = Catalog::from_builds(&vec![
        build("d1", "/tmp/d1"),
        build("d2", "/tmp/d2"),
        build("d3", "/tmp/d3"),
        build("d4", "/tmp/d4"),
    ]);
    let copies: Vec<CopyJob> = default_copies(CaGame::Warhammer2, &defaults, "appdata");
    assert_eq!(copies.len(), 4);
    assert_eq!(copies[0].from, "/tmp/d1");
    assert_eq!(copies[0].to, format!("appdata{}d1.army_setup", sep()));
    let copied = vec![Ok(()), Ok(()), Err(String::from("no")), Ok(())];
    let done = append_default_army_builds(&mut all, CaGame::Warhammer2, &defaults, &copies, &copied);
    assert!(!done);
    let got = all.get(CaGame::Warhammer2).unwrap();
    assert_eq!(names(got.builds()), strings(&["d2", "d1"]));
    assert_eq!(got.builds()[0].file, "/mine/d2");
    assert_eq!(got.builds()[1].file, format!("appdata{}d1.army_setup", sep()));
    let copied = vec![Ok(()), Ok(()), Ok(()), Ok(())];
    let done = append_default_army_builds(&mut all, CaGame::Warhammer2, &defaults, &copies, &copied);
    assert!(done);
    assert_eq!(
        names(all.get(CaGame::Warhammer2).unwrap().builds()),
        strings(&["d2", "d1", "d3", "d4"])
    );
}

#[test]
fn inserting_looks_at_the_folder_before_the_name() {
    let mut m = manager(vec![build("x", "/src/x.army_setup")]);
    m.select_display_build(0);
    m.insert_name = String::new();
    let r = m.insert_army(PathKind::Missing, PathKind::File);
    assert!(matches!(r, Err(InsertError::InvalidDestination)));
    let r = m.insert_army(PathKind::File, PathKind::Missing);
    assert!(matches!(r, Err(InsertError::InvalidDestination)));
    m.insert_folder.folder_string = String::from("/no/publisher/here");
    let r = m.insert_army(PathKind::Directory, PathKind::File);
    assert!(matches!(r, Err(InsertError::InvalidDestination)));
}

#[test]
fn a_failed_insertion_is_told_in_words() {
    let mut m = manager(vec![]);
    assert_eq!(m.insert_error_message(&InsertError::InvalidDestination), "You're folder's no good");
    assert_eq!(m.insert_error_message(&InsertError::SourceMissing), "Da army file went missing!!!!");
    assert_eq!(
        m.insert_error_message(&InsertError::CopyFailed(String::from("disk full"))),
        "Couldn't copy"
    );
    m.insert_name = String::new();
    assert_eq!(
        m.insert_error_message(&InsertError::InvalidName),
        "Oy ya got to write something here"
    );
    m.insert_name = String::from(".x");
    assert_eq!(
        m.insert_error_message(&InsertError::InvalidName),
        "Can't start a name with special characters"
    );
}
