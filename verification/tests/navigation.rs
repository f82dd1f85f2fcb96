use battle_cats_complete::navigation::{
    all_pages, all_popups, start_page, AppStart, home_status, navigation, popup_shows, set_updater_popup, sidebar_pages, sync_updater_popup,
    undo_key, ActivePopup, Entry, Page, Popups, Sidebar,
};
use battle_cats_complete::updater::Updater;

#[test]
fn every_popup_kind_is_claimed_exactly_once() {
    let claimed: Vec<_> = all_popups().into_iter().map(ActivePopup::kind).collect();

    for (index, kind) in claimed.iter().enumerate() {
        assert!(!claimed[index + 1..].contains(kind), "{kind:?} is claimed by two popups");
    }

    assert_eq!(claimed.len(), 20, "a popup kind is claimed by nobody, or a popup is missing from the list");
}

#[test]
fn tabs_are_named_after_their_pages() {
    assert_eq!(Page::Home.tab_name(), "Home");
    assert_eq!(Page::Utilities.tab_name(), "Utilities");
    assert_eq!(Page::Settings.tab_name(), "Settings");
    assert!(!Page::Mining.nightly());
}

#[test]
fn the_sidebar_lists_every_page_in_order() {
    let pages = all_pages();
    assert_eq!(pages.len(), 12);
    assert_eq!(pages[0], Page::Home);
    assert_eq!(pages[11], Page::Settings);
    assert_eq!(sidebar_pages(false), pages);
    assert_eq!(sidebar_pages(true), pages);
}

#[test]
fn opening_a_popup_twice_keeps_one_copy() {
    let mut popups = Popups::new();
    assert!(popups.sync(ActivePopup::Updater, true));
    assert!(!popups.sync(ActivePopup::Updater, true));
    assert!(popups.sync(ActivePopup::CatFilter, true));
    assert_eq!(popups.open_popups(), vec![ActivePopup::Updater, ActivePopup::CatFilter]);
    assert!(!popups.sync(ActivePopup::Updater, false));
    assert_eq!(popups.open_popups(), vec![ActivePopup::CatFilter]);
    assert!(popups.is_open(ActivePopup::CatFilter));
    assert!(!popups.is_open(ActivePopup::Updater));
}

#[test]
fn page_popups_show_only_on_their_page() {
    assert!(popup_shows(ActivePopup::CatFilter, Page::Cats, true, false));
    assert!(!popup_shows(ActivePopup::CatFilter, Page::Enemies, true, false));
    assert!(!popup_shows(ActivePopup::CatExport, Page::Cats, true, false));
    assert!(popup_shows(ActivePopup::CatExport, Page::Cats, true, true));
    assert!(!popup_shows(ActivePopup::VersionNotice, Page::Home, false, false));
    assert!(popup_shows(ActivePopup::InitErrors, Page::Studio, false, false));

    let mut popups = Popups::new();
    popups.sync(ActivePopup::StageFilter, true);
    popups.sync(ActivePopup::Updater, true);
    assert_eq!(popups.shown(Page::Stages, true, false), vec![ActivePopup::StageFilter, ActivePopup::Updater]);
    assert_eq!(popups.shown(Page::Home, true, false), vec![ActivePopup::Updater]);
}

#[test]
fn command_z_undoes() {
    assert!(undo_key(true, "z"));
    assert!(undo_key(true, "Z"));
    assert!(!undo_key(false, "z"));
    assert!(!undo_key(true, "y"));
    assert!(!undo_key(true, "zz"));
}

#[test]
fn moving_between_pages_leaves_and_enters_as_needed() {
    assert_eq!(navigation(Page::Files, Page::Cats), (true, false, Entry::RestoreRoster));
    assert_eq!(navigation(Page::Files, Page::Files), (false, false, Entry::SyncFiles));
    assert_eq!(navigation(Page::Studio, Page::Home), (false, true, Entry::HomeStatus));
    assert_eq!(navigation(Page::Home, Page::Studio), (false, false, Entry::RestoreExport));
    assert_eq!(navigation(Page::Home, Page::Settings), (false, false, Entry::Nothing));
    assert_eq!(navigation(Page::Home, Page::Mods), (false, false, Entry::Nothing));
    assert_eq!(navigation(Page::Home, Page::Mining), (false, false, Entry::EnterMining));
    assert_eq!(navigation(Page::Home, Page::Help), (false, false, Entry::RestoreHelp));
    assert_eq!(home_status(false, false, 0), None);
    assert_eq!(home_status(true, true, 0), None);
    assert_eq!(home_status(true, false, 0), Some(true));
    assert_eq!(home_status(true, false, 3), Some(false));
}

#[test]
fn the_updater_popup_follows_the_updater() {
    let mut popups = Popups::new();
    let mut updater = Updater::new();
    set_updater_popup(&mut popups, &mut updater, true);
    assert!(updater.popup_open);
    assert!(popups.is_open(ActivePopup::Updater));
    set_updater_popup(&mut popups, &mut updater, true);
    set_updater_popup(&mut popups, &mut updater, false);
    assert!(!updater.popup_open);
    assert!(!popups.is_open(ActivePopup::Updater));
    updater.popup_open = true;
    sync_updater_popup(&mut popups, &updater);
    assert!(popups.is_open(ActivePopup::Updater));
}

#[test]
fn the_sidebar_starts_open_and_toggles() {
    let mut sidebar = Sidebar::new();
    assert!(sidebar.open);
    assert_eq!(sidebar.arrow(), "\u{25B6}");
    sidebar.toggle();
    assert!(!sidebar.open);
    assert_eq!(sidebar.arrow(), "\u{25C0}");
    sidebar.toggle();
    assert!(sidebar.open);
}

#[test]
fn the_application_starts_at_home_with_nothing_ready() {
    assert_eq!(start_page(), Page::Home);
    let start = AppStart::new();
    assert_eq!(start.page, Page::Home);
    assert!(start.sidebar.open);
    assert!(!start.popups.is_open(ActivePopup::Updater));
    assert!(!start.updater.popup_open);
    assert!(!start.vault_ready);
    assert!(!start.indexing.state.rebuild_running);
    assert!(start.indexing.replay.is_empty());
    assert!(!start.reveal.window_shown);
}
