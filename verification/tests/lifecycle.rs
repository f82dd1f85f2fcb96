use battle_cats_complete::lifecycle::{split, ChangedPath, Indexing, Reconcile, Reveal, Validated};
use battle_cats_complete::reload::{is_png, sort_changes};

#[test]
fn the_window_shows_on_the_second_painted_frame() {
    let mut reveal = Reveal::new();
    assert!(!reveal.frame_painted());
    assert!(reveal.frame_painted());
    assert!(!reveal.frame_painted());
    assert!(!reveal.fallback());
    assert!(reveal.window_shown);
}

#[test]
fn the_fallback_shows_a_window_that_never_painted() {
    let mut reveal = Reveal::new();
    assert!(reveal.fallback());
    assert!(!reveal.frame_painted());
    assert!(!reveal.fallback());
}

#[test]
fn a_rebuild_asked_for_during_a_build_follows_it() {
    let mut ix = Indexing::new();
    assert!(ix.request_rebuild(true, false));
    assert!(!ix.request_rebuild(true, false));
    assert!(ix.state.rebuild_queued);
    assert_eq!(ix.finish(false, Some(7), true), Validated::Again);
    assert!(!ix.state.rebuild_running);
    assert!(!ix.state.rebuild_queued);
}

#[test]
fn a_build_waits_for_the_index_and_the_mount() {
    let mut ix = Indexing::new();
    assert!(!ix.request_rebuild(false, false));
    assert!(ix.state.rebuild_queued);
    assert!(!ix.request_rebuild(true, true));
    assert!(ix.request_rebuild(true, false));
    assert!(!ix.state.rebuild_queued);
}

#[test]
fn changes_during_a_build_are_replayed_on_the_new_index() {
    let mut ix = Indexing::new();
    ix.begin_build();
    ix.hold_back(&vec!["game/a.csv".to_string(), "game/b.png".to_string()]);
    match ix.finish(true, Some(1), true) {
        Validated::Adopt { replay, again } => {
            assert_eq!(replay, vec!["game/a.csv".to_string(), "game/b.png".to_string()]);
            assert!(!again);
        }
        other => panic!("expected the rebuilt index to be adopted, got {other:?}"),
    }
    assert!(ix.replay.is_empty());
}

#[test]
fn changes_outside_a_build_are_not_held_back() {
    let mut ix = Indexing::new();
    ix.hold_back(&vec!["game/a.csv".to_string()]);
    assert!(ix.replay.is_empty());
}

#[test]
fn a_stale_build_is_redone_and_keeps_its_replay() {
    let mut ix = Indexing::new();
    ix.begin_build();
    ix.hold_back(&vec!["mods/x/a.csv".to_string()]);
    assert_eq!(ix.finish(true, None, false), Validated::Stale);
    assert_eq!(ix.replay.len(), 1);
}

#[test]
fn a_matching_index_reconciles_the_caches() {
    let mut ix = Indexing::new();
    ix.begin_build();
    assert_eq!(ix.finish(false, Some(9), true), Validated::Reconcile(9));
    assert_eq!(ix.reconcile(Some(9), None, Some(9)), Reconcile::Waiting);
    assert_eq!(ix.reconcile(Some(9), Some(9), Some(9)), Reconcile::Settled);
    assert_eq!(ix.reconcile(Some(9), Some(9), Some(9)), Reconcile::Idle);

    ix.begin_build();
    assert_eq!(ix.finish(false, Some(4), true), Validated::Reconcile(4));
    assert_eq!(ix.reconcile(Some(4), Some(3), Some(4)), Reconcile::Rescan);

    ix.begin_build();
    assert_eq!(ix.finish(false, None, true), Validated::Clear);
}

#[test]
fn the_index_is_written_after_quiet_and_not_within_the_cooldown() {
    let mut ix = Indexing::new();
    ix.touched(1_000);
    assert!(!ix.auto_save(true, 2_000), "files are not quiet yet");
    assert!(ix.auto_save(true, 4_000));
    assert!(ix.state.persisting);
    assert!(!ix.state.dirty);
    ix.persisted();

    ix.touched(5_000);
    assert!(!ix.auto_save(true, 9_000), "within the cooldown");
    assert!(ix.state.dirty);
    assert!(ix.auto_save(true, 14_000));
}

#[test]
fn the_index_is_never_written_without_game_data_or_during_a_build() {
    let mut ix = Indexing::new();
    ix.touched(0);
    assert!(!ix.auto_save(false, 10_000));
    ix.begin_build();
    assert!(!ix.persist(true, 10_000));
    assert!(ix.state.dirty);
}

#[test]
fn quiet_means_three_seconds_without_changes() {
    let mut ix = Indexing::new();
    assert!(ix.quiet(0));
    ix.touched(1_000);
    assert!(!ix.quiet(3_999));
    assert!(ix.quiet(4_000));
    assert!(!ix.quiet(500));
}

#[test]
fn a_phase_split_measures_and_restarts() {
    let mut phase: u64 = 100;
    assert_eq!(split(&mut phase, 250), 150);
    assert_eq!(phase, 250);
    assert_eq!(split(&mut phase, 200), 0);
    assert_eq!(phase, 200);
}

#[test]
fn png_names_are_recognised_in_any_case() {
    assert!(is_png("stage001.png"));
    assert!(is_png("a.b.PnG"));
    assert!(!is_png(".png"));
    assert!(!is_png("png"));
    assert!(!is_png("unit.csv"));
    assert!(!is_png("image.pngx"));
}

#[test]
fn changed_names_are_sorted_into_the_art_they_touch() {
    let names: Vec<String> = vec![
        "uni044_f00.png".to_string(),
        "udi044_c00.png".to_string(),
        "enemy_icon_012.png".to_string(),
        "gatyaitemD_30_f.png".to_string(),
        "bg001.png".to_string(),
        "unit044.csv".to_string(),
    ];
    let touched = sort_changes(&names);
    assert_eq!(touched.units, vec![44]);
    assert_eq!(touched.enemies, vec![12]);
    assert_eq!(touched.items, vec![30]);
    assert!(touched.coarse);

    let plain = sort_changes(&vec!["unit044.csv".to_string()]);
    assert!(plain.units.is_empty());
    assert!(!plain.coarse);
}

fn changed(path: &str) -> ChangedPath {
    ChangedPath {
        path: path.to_string(),
        parts: path.split('/').map(str::to_string).collect(),
    }
}

#[test]
fn changes_before_the_index_is_ready_are_dropped() {
    let mut ix = Indexing::new();
    ix.begin_build();
    let kept = ix.take_changes(false, &vec![changed("game/a.csv"), changed("mods/x/b.png")]);
    assert!(kept.is_empty());
    assert!(ix.replay.is_empty());
}

#[test]
fn only_paths_under_a_mount_are_taken() {
    let mut ix = Indexing::new();
    let kept = ix.take_changes(
        true,
        &vec![changed("game/a.csv"), changed("studio/c.png"), changed("mods"), changed("x/mods/m1/b.png")],
    );
    assert_eq!(kept, vec!["game/a.csv".to_string(), "x/mods/m1/b.png".to_string()]);
    assert!(ix.replay.is_empty());
}

#[test]
fn taken_changes_are_held_back_during_a_build() {
    let mut ix = Indexing::new();
    ix.begin_build();
    let kept = ix.take_changes(true, &vec![changed("sandbox/s.json"), changed("game/a.csv")]);
    assert_eq!(kept, vec!["game/a.csv".to_string()]);
    assert_eq!(ix.replay, vec!["game/a.csv".to_string()]);
}
