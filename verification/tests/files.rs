use battle_cats_complete::files::{
    all_modes, selection_label, Activation, Browser, Changed, Content, Mode, ModeChange, PackFault, PackState, Rebuild,
};

fn browser(mounts: &[&str]) -> Browser {
    let mut b = Browser::new();
    b.sync(mounts.iter().map(|m| m.to_string()).collect(), false);
    b
}

#[test]
fn views_are_named_and_listed() {
    let labels: Vec<&str> = all_modes().into_iter().map(Mode::label).collect();
    assert_eq!(labels, vec!["Tree", "Flat", "Pack"]);
    assert_eq!(Mode::default(), Mode::Tree);
}

#[test]
fn the_pack_view_waits_for_its_manifest() {
    let mut b = browser(&["game"]);
    assert_eq!(b.select_mode(Mode::Pack), ModeChange::Notice("Import manifest building\nReverting to previous selection"));
    assert_eq!(b.mode, Mode::Tree);
    assert!(b.probe_packs(Some(1)));
    assert!(!b.probe_packs(Some(1)), "one indexing at a time");
    assert!(!b.pack_indexed(Ok(())));
    assert_eq!(b.pack_state, PackState::Ready);
    assert_eq!(b.select_mode(Mode::Pack), ModeChange::Switched);
    assert_eq!(b.select_mode(Mode::Pack), ModeChange::Unchanged);
}

#[test]
fn a_broken_manifest_falls_back_to_the_tree() {
    let mut b = browser(&["game"]);
    b.probe_packs(None);
    b.pack_indexed(Ok(()));
    b.select_mode(Mode::Pack);
    b.reload_packs(Some(2));
    assert!(b.pack_indexed(Err(PackFault::Malformed)));
    assert_eq!(b.mode, Mode::Tree);
    assert_eq!(b.select_mode(Mode::Pack), ModeChange::Notice("Import manifest malformed\nReverting to previous selection"));
    assert_eq!(PackState::Faulted(PackFault::Missing).notice(), Some("Import manifest missing\nReverting to previous selection"));
}

#[test]
fn an_unchanged_manifest_is_not_indexed_again() {
    let mut b = browser(&["game"]);
    assert!(b.probe_packs(Some(5)));
    b.pack_indexed(Ok(()));
    assert!(!b.probe_packs(Some(5)));
    assert!(b.probe_packs(Some(6)));
}

#[test]
fn a_browser_takes_the_first_mount_and_drops_a_vanished_one() {
    let mut b = Browser::new();
    assert!(!b.sync(vec!["game".to_string(), "mods_a".to_string()], true));
    assert_eq!(b.mount, Some("game".to_string()));

    let mut remembered = Browser::new();
    remembered.mount = Some("gone".to_string());
    remembered.selected = Some("a.csv".to_string());
    remembered.verify = true;
    assert!(remembered.stale() == false);
    remembered.sync(vec!["game".to_string()], true);
    assert_eq!(remembered.mount, Some("game".to_string()));
    assert_eq!(remembered.selected, None);
    assert!(!remembered.verify);
}

#[test]
fn a_remembered_file_is_revealed_once_validated() {
    let mut b = Browser::new();
    b.mount = Some("game".to_string());
    b.selected = Some("DataLocal/unit001.csv".to_string());
    b.verify = true;
    assert!(!b.sync(vec!["game".to_string()], false));
    assert!(b.verify);
    assert!(b.sync(vec!["game".to_string()], true));
    assert!(!b.verify);
}

#[test]
fn the_game_mount_is_read_only_unless_unlocked() {
    let mut b = browser(&["game", "mine"]);
    assert!(!b.writable());
    b.unlocked = true;
    assert!(b.writable());
    b.unlocked = false;
    assert!(b.select_mount("mine".to_string()));
    assert!(b.writable());
    assert!(!b.select_mount("mine".to_string()));
}

#[test]
fn the_list_says_why_it_is_empty() {
    let mut b = Browser::new();
    assert_eq!(b.settle(true, 3), Rebuild::Settled(Content::NoMounts));
    assert_eq!(Content::NoMounts.label(), Some("No Mounts Available"));

    let mut b = browser(&["game"]);
    b.mount = Some("gone".to_string());
    b.selected = Some("x".to_string());
    assert_eq!(b.settle(true, 3), Rebuild::Settled(Content::MountMissing));
    assert_eq!(b.selected, None);
    assert_eq!(b.remembered_mount(), None);

    let mut b = browser(&["game"]);
    b.selected = Some("x".to_string());
    assert_eq!(b.settle(false, 0), Rebuild::Settled(Content::NoFiles));
    assert_eq!(b.selected, None);
    assert_eq!(b.settle(true, 4), Rebuild::Tree);
    b.populated(true);
    assert_eq!(b.content, Content::Rows);
    assert_eq!(Content::Rows.label(), None);
}

#[test]
fn changes_in_another_mount_leave_the_list_alone() {
    let b = browser(&["game", "mine"]);
    let changed = vec![
        Changed { mount: Some("mine".to_string()), is_selected: true },
        Changed { mount: None, is_selected: false },
    ];
    let impact = b.impact(&changed);
    assert!(!impact.mounted && !impact.touched);
    let here = vec![Changed { mount: Some("game".to_string()), is_selected: true }];
    let impact = b.impact(&here);
    assert!(impact.mounted && impact.touched);
}

#[test]
fn the_header_names_mount_and_file() {
    assert_eq!(selection_label("game", "unit001.csv"), "game :: unit001.csv");
}

#[test]
fn closing_the_sidebar_stops_it_sliding_in() {
    let mut b = Browser::new();
    b.toggle_sidebar();
    assert!(!b.sidebar_open);
    assert!(!b.entered);
    assert!(!b.deselect());
}

#[test]
fn opening_rows_toggles_folders_and_shows_files() {
    let mut b = Browser::new();
    assert_eq!(b.activate(Some((false, "a.csv".to_string()))), Activation::Nothing);
    b.select_mount("game".to_string());
    assert_eq!(b.activate(None), Activation::Nothing);
    assert_eq!(b.activate(Some((true, "DataLocal".to_string()))), Activation::Toggled);
    assert_eq!(b.selected, None);
    assert_eq!(b.activate(Some((false, "a.csv".to_string()))), Activation::Selected { recenter: false });
    assert_eq!(b.selected, Some("a.csv".to_string()));
    assert_eq!(b.activate(Some((false, "a.csv".to_string()))), Activation::Selected { recenter: true });
    assert_eq!(b.activate(Some((false, "b.csv".to_string()))), Activation::Selected { recenter: false });
}
