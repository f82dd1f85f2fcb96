use battle_cats_complete::battle::{action_of, playable, Action, Battle, Bind, KeyOutcome};

#[test]
fn bindings_map_to_battle_actions() {
    assert_eq!(action_of(Bind::Slot(3)), Some(Action::Slot(3)));
    assert_eq!(action_of(Bind::SpeedUp), Some(Action::Item(0)));
    assert_eq!(action_of(Bind::CatCpu), Some(Action::Item(3)));
    assert_eq!(action_of(Bind::Sniper), Some(Action::Item(5)));
    assert_eq!(action_of(Bind::Left), Some(Action::PanLeft));
    assert_eq!(action_of(Bind::Right), Some(Action::PanRight));
    assert_eq!(action_of(Bind::Restart), None);
}

#[test]
fn keys_pass_through_only_while_a_battle_runs() {
    let mut b = Battle::new(true);
    assert_eq!(b.key(Some(Bind::Cannon), true, 0, false), KeyOutcome::Ignored);
    assert_eq!(b.key(None, true, 0, true), KeyOutcome::Ignored);
    assert_eq!(b.key(Some(Bind::Cannon), true, 0, true), KeyOutcome::Send(Action::Cannon, true));
    assert_eq!(b.key(Some(Bind::Pause), false, 0, true), KeyOutcome::Send(Action::Pause, false));
}

#[test]
fn a_restart_takes_a_double_tap() {
    let mut b = Battle::new(false);
    assert_eq!(b.key(Some(Bind::Restart), true, 1000, true), KeyOutcome::Ignored);
    assert_eq!(b.key(Some(Bind::Restart), false, 1100, true), KeyOutcome::Ignored);
    assert_eq!(b.key(Some(Bind::Restart), true, 1400, true), KeyOutcome::Restart);
    assert_eq!(b.tapped, None);
    assert_eq!(b.key(Some(Bind::Restart), true, 2000, true), KeyOutcome::Ignored);
    assert_eq!(b.key(Some(Bind::Restart), true, 2401, true), KeyOutcome::Ignored);
    assert_eq!(b.tapped, Some(2401));
}

#[test]
fn a_failure_line_is_shown_once_until_it_changes() {
    let mut b = Battle::new(false);
    assert!(!b.report(""));
    assert!(b.report("Out of money"));
    assert_eq!(b.status, "Out of money");
    b.status_expired();
    assert_eq!(b.status, "");
    assert!(!b.report("Out of money"));
    assert_eq!(b.status, "");
    assert!(!b.report(""));
    assert_eq!(b.reported, "");
    b.start();
    assert_eq!(b.reported, "");
}

#[test]
fn the_terms_prompt_closes_either_way() {
    let mut b = Battle::new(true);
    assert!(b.agree());
    assert!(!b.prompt_open);
    let mut c = Battle::new(true);
    c.disagree();
    assert!(!c.prompt_open);
}

#[test]
fn a_battle_needs_a_stage_and_a_fielded_unit() {
    assert!(playable(true, Some(2)));
    assert!(!playable(true, Some(0)));
    assert!(!playable(true, None));
    assert!(!playable(false, Some(2)));
}
