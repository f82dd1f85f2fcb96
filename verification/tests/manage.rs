use battle_cats_complete::manage::{Ended, JobOutcome, Manager, Status, Work, NO_STATE_FOLDER};
use battle_cats_complete::manage::Effect;
use battle_cats_complete::replay::Pick;

fn bundle(name: &str) -> Pick {
    Pick::Bundle(name.to_string())
}

fn status_of(m: &Manager, key: &Pick) -> String {
    m.jobs.iter().find(|(k, _)| k == key).map(|(_, j)| j.status.label()).unwrap_or_else(|| "Ready".to_string())
}

#[test]
fn saving_runs_once_and_a_completed_save_is_reported() {
    let mut m = Manager::new(true);
    assert!(!m.save(Some(&bundle("a")), true));
    assert!(!m.save(None, true));
    assert!(m.save(Some(&Pick::Latest), true));
    assert!(m.busy(&Pick::Latest));
    assert_eq!(status_of(&m, &Pick::Latest), "Saving | 0%");
    assert!(!m.save(Some(&Pick::Latest), true));
    m.progress(&Pick::Latest, "Saving".to_string(), 42);
    assert_eq!(status_of(&m, &Pick::Latest), "Saving | 42%");
    assert_eq!(m.finish(Pick::Latest, JobOutcome::Completed), Effect::Saved);
    assert!(!m.busy(&Pick::Latest));
    assert_eq!(status_of(&m, &Pick::Latest), "Done");
    assert_eq!(m.ended(&Pick::Latest, Work::Save), Some(Ended::Completed));
    assert_eq!(m.ended(&Pick::Latest, Work::Video), None);
    m.button_expired(&Pick::Latest);
    assert_eq!(m.ended(&Pick::Latest, Work::Save), None);
    m.status_expired(&Pick::Latest);
    assert_eq!(status_of(&m, &Pick::Latest), "Ready");
}

#[test]
fn a_missing_state_folder_fails_the_save_at_once() {
    let mut m = Manager::new(true);
    assert!(!m.save(Some(&Pick::Latest), false));
    assert!(!m.busy(&Pick::Latest));
    assert_eq!(status_of(&m, &Pick::Latest), format!("Failed | {NO_STATE_FOLDER}"));
    assert_eq!(m.ended(&Pick::Latest, Work::Copy), Some(Ended::Failed));
}

#[test]
fn exports_need_a_bundle_and_videos_need_the_encoder() {
    let mut m = Manager::new(false);
    assert_eq!(m.copy(Some(&Pick::Latest)), None);
    assert_eq!(m.copy(Some(&bundle("a"))), Some("a".to_string()));
    assert_eq!(status_of(&m, &bundle("a")), "Exporting...");
    assert_eq!(m.copy(Some(&bundle("a"))), None);
    assert_eq!(m.export(Some(&bundle("b"))), None);
    m.refresh(true, Some(80), None, &vec!["a".to_string(), "b".to_string()]);
    assert_eq!(m.quality, "80");
    assert_eq!(m.compression, "");
    assert_eq!(m.export(Some(&bundle("b"))), Some(bundle("b")));
    assert_eq!(status_of(&m, &bundle("b")), "Rendering | 0%");
    assert_eq!(m.finish(bundle("a"), JobOutcome::Completed), Effect::Nothing);
}

#[test]
fn aborting_applies_once_to_saves_and_videos() {
    let mut m = Manager::new(true);
    m.copy(Some(&bundle("a")));
    assert!(!m.abort(Some(&bundle("a"))));
    assert!(m.export(Some(&bundle("b"))).is_some());
    m.progress(&bundle("b"), "Rendering".to_string(), 30);
    assert!(m.abort(Some(&bundle("b"))));
    assert_eq!(status_of(&m, &bundle("b")), "Aborting...");
    let bar = m.jobs.iter().find(|(k, _)| *k == bundle("b")).map(|(_, j)| j.status.bar());
    assert_eq!(bar, Some(30));
    assert!(!m.abort(Some(&bundle("b"))));
    m.progress(&bundle("b"), "Rendering".to_string(), 60);
    assert_eq!(status_of(&m, &bundle("b")), "Aborting...");
    assert_eq!(m.finish(bundle("b"), JobOutcome::Aborted), Effect::Nothing);
    assert_eq!(status_of(&m, &bundle("b")), "Ready");
    assert_eq!(m.ended(&bundle("b"), Work::Video), Some(Ended::Aborted));
    assert!(!m.abort(None));
}

#[test]
fn deleting_a_bundle_takes_two_presses_and_reports_the_outcome() {
    let mut m = Manager::new(true);
    assert_eq!(m.delete(Some(&Pick::Latest)), None);
    assert_eq!(m.delete(Some(&bundle("a"))), None);
    assert!(m.deleting.value.is_some());
    assert_eq!(m.delete(Some(&bundle("a"))), Some("a".to_string()));
    assert_eq!(m.deleted("a".to_string(), Ok(())), Effect::Deleted("a".to_string()));
    m.delete(Some(&bundle("c")));
    m.delete_expired();
    assert_eq!(m.delete(Some(&bundle("c"))), None);
    m.forget_confirm();
    assert!(m.deleting.value.is_none());
    assert_eq!(m.deleted("c".to_string(), Err("locked".to_string())), Effect::Nothing);
    assert_eq!(status_of(&m, &bundle("c")), "Failed | locked");
    m.copy(Some(&bundle("d")));
    assert_eq!(m.delete(Some(&bundle("d"))), None);
    assert!(m.deleting.value.is_none());
}

#[test]
fn refreshing_forgets_idle_jobs_of_unlisted_bundles() {
    let mut m = Manager::new(true);
    m.copy(Some(&bundle("a")));
    m.finish(bundle("a"), JobOutcome::Completed);
    m.copy(Some(&bundle("b")));
    m.save(Some(&Pick::Latest), true);
    m.finish(Pick::Latest, JobOutcome::Completed);
    m.refresh(true, None, Some(5), &vec![]);
    let keys: Vec<Pick> = m.jobs.iter().map(|(k, _)| k.clone()).collect();
    assert_eq!(keys, vec![bundle("b"), Pick::Latest]);
    assert_eq!(m.compression, "5");
}

#[test]
fn renaming_moves_the_job() {
    let mut m = Manager::new(true);
    m.copy(Some(&bundle("a")));
    m.rekey(&bundle("a"), bundle("z"));
    assert!(m.busy(&bundle("z")));
    assert!(!m.busy(&bundle("a")));
    m.rekey(&bundle("q"), bundle("y"));
    assert_eq!(m.jobs.len(), 1);
}

#[test]
fn quality_fields_take_percentages() {
    let mut m = Manager::new(true);
    assert_eq!(m.set_quality("250"), Some(Some(100)));
    assert_eq!(m.quality, "100");
    assert_eq!(m.set_quality("8x"), None);
    assert_eq!(m.quality, "100");
    assert_eq!(m.set_compression(""), Some(None));
    assert_eq!(m.compression, "");
    assert_eq!(m.set_compression("0"), Some(Some(1)));
    assert_eq!(m.compression, "1");
}

#[test]
fn statuses_have_bars() {
    assert_eq!(Status::Exporting.bar(), 0);
    assert_eq!(Status::Ready.bar(), 100);
    assert_eq!(Status::Done.label(), "Done");
}
