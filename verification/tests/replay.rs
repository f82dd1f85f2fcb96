use battle_cats_complete::replay::{
    describe, foreign_version, refreshed, relisted, worn_orbs, SaveFacts, Staged, Viewer, NO_BATTLE_NOTE, SAVING_NOTE,
};
use battle_cats_complete::replay::Pick;

fn bundle(name: &str) -> Pick {
    Pick::Bundle(name.to_string())
}

fn facts() -> SaveFacts {
    SaveFacts {
        width: 1280,
        height: 720,
        phone: true,
        version: String::new(),
        map_name: String::new(),
        map_id: 4,
        stage_name: "Korea".to_string(),
        stage: 2,
        crown: 0,
    }
}

#[test]
fn a_vanished_bundle_falls_back_to_the_latest_battle() {
    let listed = vec!["a".to_string(), "b".to_string()];
    assert_eq!(refreshed(Some(&bundle("b")), &listed), bundle("b"));
    assert_eq!(refreshed(Some(&bundle("c")), &listed), Pick::Latest);
    assert_eq!(refreshed(Some(&Pick::Latest), &listed), Pick::Latest);
    assert_eq!(refreshed(None, &listed), Pick::Latest);
    assert!(relisted(Some(&bundle("c")), &listed));
    assert!(!relisted(Some(&bundle("a")), &listed));
    assert!(!relisted(Some(&Pick::Latest), &listed));
    assert!(!relisted(None, &listed));
}

#[test]
fn the_stage_cache_keeps_the_latest_battle_and_one_bundle() {
    let mut cache: Staged<u32> = Staged::new();
    cache.store(Pick::Latest, "t1".to_string(), 1);
    cache.store(bundle("a"), "s1".to_string(), 2);
    assert_eq!(cache.lookup(&Pick::Latest, "t1"), Some(&1));
    assert_eq!(cache.lookup(&Pick::Latest, "t2"), None);
    assert_eq!(cache.lookup(&bundle("a"), "s1"), Some(&2));
    cache.store(bundle("b"), "s2".to_string(), 3);
    assert_eq!(cache.entries.len(), 2);
    assert_eq!(cache.lookup(&bundle("a"), "s1"), None);
    assert_eq!(cache.lookup(&bundle("b"), "s2"), Some(&3));
    cache.store(Pick::Latest, "t2".to_string(), 4);
    assert_eq!(cache.lookup(&Pick::Latest, "t1"), None);
    assert_eq!(cache.lookup(&Pick::Latest, "t2"), Some(&4));
    assert_eq!(cache.lookup(&bundle("b"), "s2"), Some(&3));
}

#[test]
fn details_list_the_recording_and_the_game() {
    let f = facts();
    let d = describe("Latest Battle".to_string(), Some("1:00".to_string()), Some(&f), 12, "3.4 MB".to_string());
    assert_eq!(d.title, "Latest Battle");
    let meta: Vec<(&str, &str)> = d.meta.iter().map(|(l, v)| (*l, v.as_str())).collect();
    assert_eq!(meta, vec![("Time", "1:00"), ("Screen", "1280 \u{d7} 720 (Phone)"), ("Assets", "12 files"), ("Size", "3.4 MB")]);
    let game: Vec<(&str, &str)> = d.game.iter().map(|(l, v)| (*l, v.as_str())).collect();
    assert_eq!(game, vec![("Version", "Unknown"), ("Map", "Map 4")]);
    assert_eq!(d.stage, Some(("Korea".to_string(), 1)));
    assert_eq!(d.version, Some(String::new()));
    assert!(d.ready);

    let mut g = facts();
    g.stage_name = String::new();
    g.map_name = "Empire".to_string();
    g.version = "14.1".to_string();
    g.phone = false;
    let d = describe("b".to_string(), None, Some(&g), 0, "0.0 MB".to_string());
    assert_eq!(d.meta[0].1, "Missing");
    assert_eq!(d.meta[1].1, "1280 \u{d7} 720");
    assert_eq!(d.game[0].1, "14.1");
    assert_eq!(d.game[1].1, "Empire");
    assert_eq!(d.stage, Some(("Stage 3".to_string(), 1)));
    assert!(!d.ready);

    let d = describe("c".to_string(), Some("0:01".to_string()), None, 1, "0.1 MB".to_string());
    assert_eq!(d.meta.len(), 3);
    assert_eq!(d.game, vec![("Save", "Missing".to_string())]);
    assert_eq!(d.stage, None);
    assert!(!d.ready);
}

#[test]
fn a_foreign_version_is_reported() {
    assert_eq!(foreign_version(Some("13.0"), "14.1"), Some("13.0"));
    assert_eq!(foreign_version(Some("14.1"), "14.1"), None);
    assert_eq!(foreign_version(None, "14.1"), None);
}

#[test]
fn worn_orbs_come_in_slot_order_without_empty_ones() {
    assert_eq!(worn_orbs(&vec![(1, 7), (0, 3), (2, -1), (0, 1)]), vec![1, 3, 7]);
    assert_eq!(worn_orbs(&vec![]), Vec::<u32>::new());
}

#[test]
fn a_double_click_opens_a_unit_that_exists() {
    let mut v = Viewer::new();
    v.select(bundle("a"));
    assert_eq!(v.press(2, 100, 5), None);
    assert_eq!(v.press(2, 300, 5), Some(2));
    assert_eq!(v.open, Some(2));
    v.close();
    assert_eq!(v.open, None);
    assert_eq!(v.press(7, 1000, 5), None);
    assert_eq!(v.press(7, 1100, 5), None);
    assert_eq!(v.open, None);
}

#[test]
fn saving_the_latest_battle_reports_its_outcome() {
    let mut v = Viewer::new();
    assert!(!v.save(false));
    assert_eq!(v.note, NO_BATTLE_NOTE);
    assert!(v.save(true));
    assert_eq!(v.note, SAVING_NOTE);
    assert!(!v.save(true));
    assert!(v.saved(Ok("battle-2".to_string())));
    assert_eq!(v.note, "Saved as battle-2");
    assert!(!v.saving);
    v.save(true);
    assert!(!v.saved(Err("disk full".to_string())));
    assert_eq!(v.note, "Could not save: disk full");
    v.select(Pick::Latest);
    assert_eq!(v.note, "");
    assert_eq!(v.reel(true), Some(Pick::Latest));
    assert_eq!(v.reel(false), None);
}
