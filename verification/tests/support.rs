use battle_cats_complete::autosave::{pending_hash, SaveMark};
use battle_cats_complete::feedback::{Slot, CONFIRM_LABEL};
use battle_cats_complete::init_errors::{watcher_text, Conflict, InitErrors, Shown};
use battle_cats_complete::logging::{debug_names, find_override_file, log_plan, trace_names, LogLevel, LogPlan, LogSink};
use battle_cats_complete::sheets::{icon_sheet, plan_loads, SheetStatus};
use battle_cats_complete::theme::{AppTheme, Rgb8};
use battle_cats_complete::watcher::Lapse;

#[test]
fn the_dark_theme_is_the_default() {
    assert_eq!(AppTheme::default(), AppTheme::Dark);
    assert_eq!(AppTheme::Dark.name(), "BCC Dark");
    assert_eq!(AppTheme::Light.name(), "BCC Light");
    assert_eq!(AppTheme::Dark.palette().background, Rgb8 { r: 33, g: 33, b: 33 });
    assert_eq!(AppTheme::Light.palette().danger, Rgb8 { r: 190, g: 40, b: 40 });
    assert_eq!(AppTheme::Light.palette().primary, AppTheme::Dark.palette().primary);
}

#[test]
fn a_trace_file_wins_over_a_debug_file_and_the_setting() {
    let trace = find_override_file(&trace_names(), &vec![false, true]);
    assert_eq!(trace, Some("trace"));
    let debug = find_override_file(&debug_names(), &vec![true, true]);
    assert_eq!(debug, Some("debug.txt"));

    match log_plan(trace, debug, false) {
        LogPlan::Write { level, directive, sink } => {
            assert_eq!(level, LogLevel::Trace);
            assert_eq!(directive, "info,gui=trace,core=trace,nyanko=trace,zbus=error");
            assert_eq!(sink, LogSink::Override("trace"));
        }
        LogPlan::Off => panic!("a trace file turns logging on"),
    }
    match log_plan(None, debug, false) {
        LogPlan::Write { level, sink, .. } => {
            assert_eq!(level, LogLevel::Debug);
            assert_eq!(sink, LogSink::Override("debug.txt"));
        }
        LogPlan::Off => panic!("a debug file turns logging on"),
    }
    assert_eq!(log_plan(None, None, true), LogPlan::Write { level: LogLevel::Info, directive: "info,zbus=error", sink: LogSink::Rotated });
    assert_eq!(log_plan(None, None, false), LogPlan::Off);
    assert_eq!(find_override_file(&trace_names(), &vec![false, false]), None);
}

#[test]
fn a_slot_holds_a_value_until_it_expires() {
    let mut slot: Slot<u32> = Slot::new();
    assert_eq!(slot.confirm_label("Delete"), "Delete");
    slot.set(4);
    assert_eq!(slot.get(), Some(&4));
    assert_eq!(slot.confirm_label("Delete"), CONFIRM_LABEL);
    slot.expire();
    assert!(!slot.is_set());

    let mut confirm: Slot<()> = Slot::new();
    assert!(!confirm.take(&()));
    confirm.set(());
    assert!(confirm.armed_for(&()));
    assert!(confirm.take(&()));
    assert!(!confirm.is_set());
}

#[test]
fn a_slot_gives_up_only_the_value_it_holds() {
    let mut pick: Slot<u32> = Slot::new();
    pick.set(7);
    assert!(!pick.armed_for(&8));
    assert!(!pick.take(&8));
    assert_eq!(pick.get(), Some(&7));
    assert!(pick.take(&7));
    assert!(!pick.is_set());
    assert!(!pick.take(&7));
}

#[test]
fn sheets_load_once_and_give_up_without_a_cut_file() {
    let mut sheets: Vec<SheetStatus> = Vec::new();
    let starts = plan_loads(&mut sheets, &vec![true, false, true]);
    assert_eq!(starts, vec![0, 2]);
    assert_eq!(sheets.len(), 3);
    assert!(sheets[0].is_loading());
    assert!(sheets[1].has_failed());
    assert!(plan_loads(&mut sheets, &vec![true, false, true]).is_empty(), "nothing is loaded twice");

    sheets[0].apply(Some(true));
    assert!(sheets[0].is_settled());
    sheets[2].apply(None);
    assert!(sheets[2].has_failed());
    assert!(plan_loads(&mut sheets, &vec![true, false, true]).is_empty());

    sheets[2].mark_stale();
    assert_eq!(plan_loads(&mut sheets, &vec![true, false, true]), vec![2]);
    assert_eq!(plan_loads(&mut sheets, &vec![true]), Vec::<usize>::new());
    assert_eq!(sheets.len(), 1);
}

#[test]
fn a_loaded_sheet_without_pixels_counts_as_failed() {
    let mut sheet = SheetStatus::new();
    assert!(sheet.needs_load());
    sheet.begin_load();
    assert!(!sheet.needs_load());
    sheet.apply(Some(false));
    assert!(sheet.has_failed());
    assert!(sheet.is_settled());
    assert!(!sheet.needs_load());
}

#[test]
fn start_up_errors_are_acknowledged_in_order() {
    let mut errors = InitErrors::new();
    assert!(!errors.is_open());
    errors.report_watcher_failure(Lapse::Crowded, false);
    errors.report_conflicts(vec![Conflict { key: "unit001.csv".to_string(), paths: vec!["a".to_string(), "b".to_string()] }], vec!["unit001.csv".to_string()], false);
    errors.report_volatile("/tmp/x".to_string());

    assert_eq!(errors.shown(), Some(Shown::Volatile));
    errors.acknowledge();
    assert_eq!(errors.shown(), Some(Shown::Conflicts));
    assert!(errors.is_withheld("unit001.csv"));
    assert!(!errors.is_withheld("unit002.csv"));
    errors.acknowledge();
    assert_eq!(errors.shown(), Some(Shown::Watcher));
    errors.acknowledge();
    assert!(!errors.is_open());
    assert!(errors.watcher_failed());

    errors.refresh_watcher(false);
    assert_eq!(errors.shown(), Some(Shown::Watcher));
    errors.refresh_watcher(true);
    assert!(!errors.is_open());
}

#[test]
fn ignored_errors_are_not_shown() {
    let mut errors = InitErrors::new();
    errors.report_conflicts(vec![Conflict { key: "k".to_string(), paths: vec![] }], vec![], true);
    errors.report_watcher_failure(Lapse::Broken, true);
    assert!(!errors.is_open());
    assert_eq!(watcher_text(Some(Lapse::Crowded)).len(), 2);
    assert_eq!(watcher_text(Some(Lapse::Broken)).len(), 1);
    assert!(watcher_text(None)[0].starts_with("Failed to start the File Watcher."));
}

#[test]
fn unchanged_state_is_not_written_again() {
    assert_eq!(pending_hash(5, 5), None);
    assert_eq!(pending_hash(5, 6), Some(6));

    let mut mark = SaveMark::new();
    let first = mark.pending("{\"a\":1}").1.expect("new state is written");
    mark.saved(first);
    assert_eq!(mark.pending("{\"a\":1}").1, None);
    assert!(mark.pending("{\"a\":2}").1.is_some());
    let (hash, decision) = mark.pending("{\"a\":3}");
    assert_eq!(decision, Some(hash));
}

#[test]
fn icons_are_cut_from_the_first_settled_sheet_that_holds_them() {
    assert_eq!(icon_sheet(&vec![true, true], &vec![false, true]), Some(1));
    assert_eq!(icon_sheet(&vec![false, true], &vec![false, true]), None);
    assert_eq!(icon_sheet(&vec![true, false], &vec![true, false]), Some(0));
    assert_eq!(icon_sheet(&vec![true], &vec![false]), None);
}
