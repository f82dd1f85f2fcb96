use battle_cats_complete::home::{Changelog, Notes};

fn notes(version: &str, body: &str) -> Notes {
    Notes { version: version.to_string(), body: body.to_string() }
}

#[test]
fn the_notes_are_fetched_once() {
    let mut log = Changelog::new();
    assert!(log.open());
    assert_eq!(log.placeholder(), Some("Loading..."));
    assert!(!log.open(), "a fetch already runs");
    log.fetched(vec![notes("3.0.0", "new"), notes("2.8.0", "current")], "2.8.0");
    assert_eq!(log.selected, Some("2.8.0".to_string()));
    assert_eq!(log.body(), "current");
    assert_eq!(log.placeholder(), None);
    log.close();
    assert!(!log.open());
}

#[test]
fn the_newest_notes_stand_in_for_an_unlisted_version() {
    let mut log = Changelog::new();
    log.open();
    log.fetched(vec![notes("3.0.0", "new"), notes("2.9.0", "older")], "0.1.0");
    assert_eq!(log.selected, Some("3.0.0".to_string()));
    log.select("2.9.0".to_string());
    assert_eq!(log.body(), "older");
    log.select("9.9.9".to_string());
    assert_eq!(log.body(), "No notes available.");
}

#[test]
fn no_notes_at_all_shows_a_placeholder_release() {
    let mut log = Changelog::new();
    log.open();
    log.fetched(vec![], "2.8.0");
    assert_eq!(log.releases.len(), 1);
    assert_eq!(log.body(), "No releases found.");
}

#[test]
fn a_failed_fetch_says_so_and_can_be_retried() {
    let mut log = Changelog::new();
    log.open();
    log.failed();
    assert_eq!(log.placeholder(), Some("Couldn't connect to GitHub"));
    log.close();
    assert!(log.open(), "nothing was fetched, so opening again fetches");
}
