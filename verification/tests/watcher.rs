use battle_cats_complete::watcher::{
    asset, forwarded, hits, is_relevant, leading_id, mount_of, settled, Asset, Change, Debouncer, EventKind, Hit,
    Look, ModifyKind, Probe,
};

fn hit(path: &str, complete: bool) -> Hit {
    Hit { path: path.to_string(), complete }
}

#[test]
fn a_rename_into_place_skips_the_settle_wait() {
    assert!(settled(EventKind::Modify(ModifyKind::Name)));
    assert!(settled(EventKind::Remove));
    assert!(!settled(EventKind::Create));
    assert!(!settled(EventKind::Modify(ModifyKind::Data)));
}

// The file is simulated by the sizes seen at each look: it grows while written, then stops.
#[test]
fn a_growing_file_is_held_back_until_it_stops_growing() {
    let mut watcher = Debouncer::new(false);
    let path = "game/unit044.csv".to_string();
    let mut now: u64 = 1_000;
    let mut size: u64 = 6;

    watcher.take_in(hit(&path, false), Some(size), now);

    for _ in 0..4 {
        size += 6;
        now += 15;
        for due in watcher.due(now) {
            watcher.settle(&due, Some(size), true, now);
        }
        assert!(watcher.tick(now).is_none(), "a file that grew between probes must not be reported");
    }

    let mut reported = None;
    for _ in 0..4 {
        now += 15;
        for due in watcher.due(now) {
            watcher.settle(&due, Some(size), true, now);
        }
        if let Some(change) = watcher.tick(now) {
            reported = Some(change);
            break;
        }
        now += 20;
        if let Some(change) = watcher.tick(now) {
            reported = Some(change);
            break;
        }
    }

    match reported {
        Some(Change::Batch(paths)) => assert_eq!(paths, vec![path]),
        _ => panic!("a closed, stable file must settle"),
    }
    assert_eq!(watcher.waiting(), 0);
}

#[test]
fn the_ceiling_releases_a_file_that_never_settles() {
    let mut watcher = Debouncer::new(false);
    let path = "game/stuck.csv".to_string();
    let start: u64 = 5_000;

    watcher.take_in(hit(&path, false), Some(0), start);

    let later = start + 2_001;
    for due in watcher.due(later) {
        watcher.settle(&due, Some(1), false, later);
    }
    assert!(watcher.tick(later).is_none());
    let reported = watcher.tick(later + 20);

    match reported {
        Some(Change::Batch(paths)) => assert_eq!(paths, vec![path], "the ceiling must bound the wait"),
        _ => panic!("the ceiling must bound the wait"),
    }
}

#[test]
fn a_complete_event_is_ready_at_once() {
    let mut watcher = Debouncer::new(true);
    watcher.take_in(hit("mods/a/unit001.csv", true), None, 100);
    assert!(watcher.tick(100).is_none());
    match watcher.tick(120) {
        Some(Change::Batch(paths)) => assert_eq!(paths, vec!["mods/a/unit001.csv".to_string()]),
        _ => panic!("a complete file goes out after the gathering window"),
    }
}

#[test]
fn a_flood_turns_into_one_bulk_change() {
    let mut watcher = Debouncer::new(false);
    for i in 0..600u32 {
        watcher.take_in(hit(&format!("game/file{i}.csv"), true), None, 10);
    }
    assert!(watcher.waiting() < 600);
    assert!(matches!(watcher.tick(10), None));
    assert!(matches!(watcher.tick(10 + 500), Some(Change::Bulk)));
    assert_eq!(watcher.waiting(), 0);
}

#[test]
fn the_watcher_sleeps_until_the_next_look() {
    let mut watcher = Debouncer::new(false);
    assert_eq!(watcher.wait(0), 2_000);
    watcher.take_in(hit("game/a.csv", false), Some(1), 100);
    assert_eq!(watcher.wait(100), 15);
    assert_eq!(watcher.wait(200), 1);
}

#[test]
fn reads_are_not_forwarded_and_nothing_is_while_suspended() {
    assert!(!forwarded(EventKind::Access, false));
    assert!(forwarded(EventKind::Create, false));
    assert!(!forwarded(EventKind::Create, true));
}

#[test]
fn art_names_are_recognised() {
    assert_eq!(leading_id("044_f.png"), Some(44));
    assert_eq!(leading_id("x044"), None);
    assert!(matches!(asset("enemy_icon_012.png"), Some(Asset::Enemy(12))));
    assert!(matches!(asset("gatyaitemD_30_f.png"), Some(Asset::Item(30))));
    assert!(matches!(asset("readme.txt"), None));
}

#[test]
fn the_mount_is_the_first_watched_folder() {
    let parts: Vec<String> = vec!["home".to_string(), "game".to_string(), "DataLocal".to_string(), "unit.csv".to_string()];
    assert_eq!(mount_of(&parts), Some("game".to_string()));
    let none: Vec<String> = vec!["home".to_string(), "docs".to_string()];
    assert_eq!(mount_of(&none), None);
}

#[test]
fn a_fresh_probe_looks_soon_and_gives_up_late() {
    let p = Probe::new(Some(3), 1_000);
    assert_eq!(p.due, 1_015);
    assert_eq!(p.expires, 3_000);
    assert_eq!(p.streak, 0);
    let parts: Vec<String> = vec!["game".to_string(), "unit.csv".to_string()];
    let _ = is_relevant(&parts, &vec![false, false], true);
}

#[test]
fn every_due_path_is_looked_at_once() {
    let mut watcher = Debouncer::new(false);
    watcher.take_in(hit("game/a.csv", false), Some(1), 100);
    watcher.take_in(hit("game/b.csv", false), Some(1), 100);
    let looks: Vec<Look> = watcher
        .due(115)
        .into_iter()
        .map(|path| Look { path, size: Some(1), free: true })
        .collect();
    assert_eq!(looks.len(), 2);
    let mut twice = looks.clone();
    twice.extend(looks.clone());
    watcher.settle_all(&twice, 115);
    assert!(watcher.due(115).is_empty());
    assert_eq!(watcher.waiting(), 2);
    let looks: Vec<Look> = watcher
        .due(130)
        .into_iter()
        .map(|path| Look { path, size: Some(1), free: true })
        .collect();
    watcher.settle_all(&looks, 130);
    assert!(watcher.due(130).is_empty());
    assert!(watcher.tick(130).is_none());
    match watcher.tick(150) {
        Some(Change::Batch(mut paths)) => {
            paths.sort();
            assert_eq!(paths, vec!["game/a.csv".to_string(), "game/b.csv".to_string()]);
        }
        _ => panic!("both files settle"),
    }
}

#[test]
fn an_event_sends_one_hit_per_relevant_path() {
    let paths = vec!["game/a.csv".to_string(), "tmp/b.csv".to_string(), "mods/m/c.png".to_string()];
    let flags = vec![true, false, true];
    let sent = hits(EventKind::Remove, false, &paths, &flags);
    let sent: Vec<(String, bool)> = sent.into_iter().map(|h| (h.path, h.complete)).collect();
    assert_eq!(sent, vec![("game/a.csv".to_string(), true), ("mods/m/c.png".to_string(), true)]);

    let written = hits(EventKind::Create, false, &paths, &flags);
    assert_eq!(written.len(), 2);
    assert!(written.iter().all(|h| !h.complete));

    assert!(hits(EventKind::Create, true, &paths, &flags).is_empty());
    assert!(hits(EventKind::Access, false, &paths, &flags).is_empty());
}

#[test]
fn a_batch_names_each_path_once() {
    let mut watcher = Debouncer::new(true);
    watcher.take_in(hit("game/a.csv", true), None, 100);
    watcher.take_in(hit("game/b.csv", true), None, 101);
    watcher.take_in(hit("game/a.csv", true), None, 102);
    assert!(watcher.tick(102).is_none());
    match watcher.tick(200) {
        Some(Change::Batch(paths)) => {
            assert_eq!(paths.len(), 2);
            assert!(paths.contains(&"game/a.csv".to_string()));
            assert!(paths.contains(&"game/b.csv".to_string()));
        }
        _ => panic!("the settled paths go out as one batch"),
    }
}
