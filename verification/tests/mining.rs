use battle_cats_complete::mining::{
    debuted, fresh_cats, mined_level_ok, mining_tabs, new_foes, refresh_kind, shelf_of, slots_passing, surged,
    talent_slots, Chore, Desk, Outcome, Refresh, Seam, Shelf, Tab, Wipe,
};

#[test]
fn sections_are_named_in_order() {
    let labels: Vec<&str> = mining_tabs().into_iter().map(Tab::label).collect();
    assert_eq!(labels, vec!["Meta", "Cats", "Enemies", "Stages", "Files"]);
}

#[test]
fn only_moved_stages_go_untinted() {
    assert!(Seam::Fresh.tinted());
    assert!(Seam::Spoken.tinted());
    assert!(Seam::Crowned.tinted());
    assert!(!Seam::Moved.tinted());
}

#[test]
fn files_go_on_their_shelves() {
    assert_eq!(shelf_of(true, true), Shelf::FreshArt);
    assert_eq!(shelf_of(true, false), Shelf::FreshData);
    assert_eq!(shelf_of(false, true), Shelf::MovedArt);
    assert_eq!(shelf_of(false, false), Shelf::MovedData);
}

#[test]
fn new_cats_are_listed_once_in_id_order_without_spirits() {
    let fresh = fresh_cats(&vec![9, 3], &vec![5, 3], &vec![7, 1], true, &vec![7], &vec![1, 3, 5, 9, 11]);
    assert_eq!(fresh, vec![1, 3, 5, 9]);
    let without_diff = fresh_cats(&vec![9, 3], &vec![5, 3], &vec![7, 1], false, &vec![7], &vec![1, 3, 5, 9, 11]);
    assert_eq!(without_diff, vec![1, 3, 9]);
}

#[test]
fn new_enemies_are_listed_once_in_id_order() {
    assert_eq!(new_foes(&vec![4, 2, 4], &vec![8, 2], true, &vec![2, 4, 8]), vec![2, 4, 8]);
    assert_eq!(new_foes(&vec![4, 2, 4], &vec![8, 2], false, &vec![2, 8]), vec![2]);
}

#[test]
fn debuts_and_surges_are_recognised() {
    assert!(debuted(3, &vec![3], &vec![], &vec![]));
    assert!(debuted(4, &vec![], &vec![], &vec![4]));
    assert!(!debuted(5, &vec![3], &vec![4], &vec![6]));
    assert!(surged(2, &vec![], &vec![2]));
    assert!(!surged(2, &vec![1], &vec![3]));
}

#[test]
fn slots_of_standing_entries_are_kept_in_order() {
    let ids = vec![10, 11, 12, 10];
    assert_eq!(slots_passing(&ids, &vec![11], &vec![10, 11, 12]), vec![0, 2, 3]);
    assert_eq!(slots_passing(&ids, &vec![], &vec![]), Vec::<usize>::new());
}

#[test]
fn one_chore_at_a_time_and_its_outcome_is_shown() {
    let mut desk = Desk::new();
    assert!(desk.begin(Chore::Snapshot));
    assert!(desk.creating);
    assert!(!desk.begin(Chore::Diff));
    assert!(desk.settle(true));
    assert_eq!(desk.outcome, Some(Outcome { chore: Chore::Snapshot, recorded: true }));
    desk.rest();
    assert_eq!(desk.outcome, None);
    assert!(!desk.settle(false));
}

#[test]
fn discarding_takes_two_presses() {
    let mut desk = Desk::new();
    assert_eq!(desk.wipe(), Wipe::Arm);
    assert_eq!(desk.wipe(), Wipe::Discard);
    assert_eq!(desk.wipe(), Wipe::Arm);
    desk.wipe_expired();
    assert_eq!(desk.wipe(), Wipe::Arm);
}

#[test]
fn a_section_without_finds_cannot_be_chosen() {
    let mut desk = Desk::new();
    assert!(!desk.select(Tab::Cats, false));
    assert!(desk.select(Tab::Cats, true));
    assert!(!desk.select(Tab::Cats, true));
    desk.restocked(false, true);
    assert_eq!(desk.tab, Tab::Meta);
    assert!(desk.snapped);
}

#[test]
fn mined_levels_are_digits_only() {
    assert!(mined_level_ok("60"));
    assert!(mined_level_ok(""));
    assert!(!mined_level_ok("6+0"));
}

#[test]
fn talent_finds_show_only_for_a_changed_report() {
    assert_eq!(talent_slots(true, 3), vec![0, 1, 2]);
    assert!(talent_slots(false, 3).is_empty());
    assert!(talent_slots(true, 0).is_empty());
}

#[test]
fn an_unchanged_tag_only_restocks() {
    assert_eq!(refresh_kind(42, 42), Refresh::Restock);
    assert_eq!(refresh_kind(42, 41), Refresh::Reread);
}
