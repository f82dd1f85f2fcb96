use battle_cats_complete::cat::{
    clamped_selection, jump_level_input, level_fits, level_of, push_talent_history, remember_talents, shown_form, tabs, typable_level,
    DetailTab, Progress, Scan, Selection,
};

#[test]
fn a_level_is_digits_and_plus_signs() {
    assert!(typable_level("50+20"));
    assert!(typable_level(""));
    assert!(!typable_level("50 + 20"));
    assert!(!typable_level("-5"));
}

#[test]
fn a_typed_level_is_the_sum_of_its_terms_and_at_least_one() {
    assert_eq!(level_of("50+20"), 70);
    assert_eq!(level_of("30"), 30);
    assert_eq!(level_of(""), 1);
    assert_eq!(level_of("0"), 1);
    assert_eq!(level_of("+"), 1);
    assert_eq!(level_of("10++5+"), 15);
    assert_eq!(level_of("99999999999+3"), 3);
    assert_eq!(level_of("007"), 7);
}

#[test]
fn a_level_that_overflows_is_caught_before_summing() {
    assert!(level_fits("2147483647"));
    assert!(!level_fits("2147483647+1"));
    assert!(level_fits("99999999999"));
}

#[test]
fn entering_a_level_refuses_other_text() {
    let mut selection = Selection::new();
    assert!(selection.enter_level("60+10".to_string()));
    assert_eq!(selection.current_level, 70);
    assert_eq!(selection.level_input, "60+10");
    assert!(!selection.enter_level("abc".to_string()));
    assert_eq!(selection.current_level, 70);
    assert_eq!(selection.level_input, "60+10");
}

#[test]
fn the_talent_history_keeps_the_last_three_cats() {
    let mut history: Vec<u32> = Vec::new();
    assert!(remember_talents(&mut history, 1).is_empty());
    assert!(remember_talents(&mut history, 2).is_empty());
    assert!(remember_talents(&mut history, 3).is_empty());
    assert_eq!(remember_talents(&mut history, 1), Vec::<u32>::new());
    assert_eq!(history, vec![2, 3, 1]);
    assert_eq!(remember_talents(&mut history, 4), vec![2]);
    assert_eq!(history, vec![3, 1, 4]);
}

#[test]
fn choosing_the_shown_cat_again_changes_nothing() {
    let mut selection = Selection::new();
    assert_eq!(selection.select_cat(7), Some(vec![]));
    assert_eq!(selection.select_cat(7), None);
    assert_eq!(selection.talent_history, vec![7]);
}

#[test]
fn a_missing_form_falls_back_to_the_highest_one() {
    let forms = vec![true, true, false, false];
    assert_eq!(clamped_selection(3, DetailTab::Details, &forms, true), (1, DetailTab::Details));
    assert_eq!(clamped_selection(1, DetailTab::Talents, &forms, true), (1, DetailTab::Abilities));
    let full = vec![true, true, true];
    assert_eq!(clamped_selection(2, DetailTab::Talents, &full, true), (2, DetailTab::Talents));
    assert_eq!(clamped_selection(2, DetailTab::Talents, &full, false), (2, DetailTab::Abilities));
    assert_eq!(clamped_selection(0, DetailTab::Animation, &vec![], false), (0, DetailTab::Animation));
}

#[test]
fn the_banner_form_prefers_art() {
    let forms = vec![true, true, true];
    assert_eq!(shown_form(&forms, &vec![true, false, false], 2), 0);
    assert_eq!(shown_form(&forms, &vec![false, false, false], 1), 1);
    assert_eq!(shown_form(&vec![false, false, true], &vec![false, false, true], 1), 2);
    assert_eq!(shown_form(&vec![false, false], &vec![false, false], 5), 0);
}

#[test]
fn the_talents_tab_gives_way_below_the_third_form() {
    let mut selection = Selection::new();
    selection.selected_tab = DetailTab::Talents;
    selection.select_form(2);
    assert_eq!(selection.selected_tab, DetailTab::Talents);
    selection.select_form(1);
    assert_eq!(selection.selected_tab, DetailTab::Abilities);
}

#[test]
fn jumping_to_a_level_fills_the_box() {
    assert_eq!(jump_level_input(50, 0), "50");
    assert_eq!(jump_level_input(50, 20), "50+20");
}

#[test]
fn tab_labels_are_in_order() {
    let labels: Vec<&str> = tabs().into_iter().map(DetailTab::label).collect();
    assert_eq!(labels, vec!["Abilities", "Talents", "Details", "Animation"]);
}

#[test]
fn news_from_an_old_scan_is_ignored() {
    let mut scan = Scan::new();
    let first = scan.start();
    let second = scan.start();
    scan.report(first, 5, 10);
    assert_eq!(scan.progress, None);
    scan.report(second, 5, 10);
    assert_eq!(scan.progress, Some(Progress { done: 5, total: 10 }));
    scan.report(second, 3, 10);
    assert_eq!(scan.progress, Some(Progress { done: 5, total: 10 }));
    assert!(!scan.loaded(first, Some(1)));
    assert!(scan.loaded(second, Some(2)));
    assert_eq!(scan.cached_key, Some(2));
    assert_eq!(scan.progress, None);
}

#[test]
fn forgotten_cats_lose_their_talent_choices() {
    let mut history = vec![1, 2, 3];
    let mut levels: std::collections::HashMap<u32, Vec<(u8, u8)>> = std::collections::HashMap::new();
    levels.insert(1, vec![(0, 10)]);
    levels.insert(2, vec![(1, 5)]);
    levels.insert(3, vec![]);
    push_talent_history(&mut history, &mut levels, 4);
    assert_eq!(history, vec![2, 3, 4]);
    assert!(!levels.contains_key(&1));
    assert_eq!(levels.get(&2), Some(&vec![(1, 5)]));
    assert!(levels.contains_key(&3));

    push_talent_history(&mut history, &mut levels, 2);
    assert_eq!(history, vec![3, 4, 2]);
    assert_eq!(levels.len(), 2);
}
