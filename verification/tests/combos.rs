use battle_cats_complete::combos::{
    contains_text, fold_query, groups, sift, trim, Card, Kind, Member, Panel, Strength, EVERY_KIND,
};

fn card(effect_type: i32, effect_level: i32, name: &str, kind: &str, band: &str, members: Vec<Member>) -> Card {
    Card::new(effect_type, effect_level, name.to_string(), kind.to_string(), band.to_string(), members)
}

fn member(id: u32, form: usize) -> Member {
    Member { id: Some(id), form }
}

fn table() -> Vec<Card> {
    vec![
        card(2, 1, "Speed Up", "Movement", "Small", vec![member(10, 0)]),
        card(0, 3, "Attack Up", "Strength", "Large", vec![member(11, 1), member(12, 0)]),
        card(0, 1, "Power Trio", "Strength", "Small", vec![member(10, 1)]),
        card(2, 2, "Fast Feet", "Movement", "", vec![member(13, 0)]),
        card(0, 3, "Attack Up", "Strength", "Large", vec![member(14, 0)]),
    ]
}

#[test]
fn trimming_drops_only_outer_white_space() {
    assert_eq!(trim("  a b \t"), "a b");
    assert_eq!(trim("   "), "");
    assert_eq!(trim(""), "");
    assert_eq!(fold_query("  SpEeD "), "speed");
}

#[test]
fn text_search_finds_inner_runs() {
    assert!(contains_text("attack up", "ack"));
    assert!(contains_text("attack up", ""));
    assert!(contains_text("", ""));
    assert!(!contains_text("attack", "attacks"));
    assert!(!contains_text("attack up", "upx"));
    assert!(contains_text("attack up", "attack up"));
}

#[test]
fn cards_fold_their_names() {
    let c = card(1, 1, "Speed UP", "Movement", "", vec![]);
    assert_eq!(c.folded, "speed up");
    assert!(!c.active);
    assert!(!c.banned);
}

#[test]
fn the_panel_orders_by_state_type_strength_name_then_table() {
    let mut cards = table();
    cards[3].active = true;
    cards[2].banned = true;
    let shown = sift(&cards, "", &Strength::Any, None, None);
    // Fulfilled first; then allowed ones by type, strongest first, by name, table order;
    // the banned one last.
    assert_eq!(shown, vec![3, 1, 4, 0, 2]);
}

#[test]
fn the_filters_each_narrow_the_panel() {
    let mut cards = table();
    cards[0].active = true;
    assert_eq!(sift(&cards, "", &Strength::Active, None, None), vec![0]);
    assert_eq!(sift(&cards, "", &Strength::Inactive, None, None), vec![1, 4, 2, 3]);
    assert_eq!(sift(&cards, "", &Strength::Band(3, "Large".to_string()), None, None), vec![1, 4]);
    assert_eq!(sift(&cards, "", &Strength::Any, Some(2), None), vec![0, 3]);
    assert_eq!(sift(&cards, "up", &Strength::Any, None, None), vec![0, 1, 4]);
    // The focused unit must be a member at a form it has reached.
    assert_eq!(sift(&cards, "", &Strength::Any, None, Some((10, 0))), vec![0]);
    assert_eq!(sift(&cards, "", &Strength::Any, None, Some((10, 1))), vec![0, 2]);
    assert_eq!(sift(&cards, "", &Strength::Any, None, Some((99, 5))), Vec::<usize>::new());
}

#[test]
fn filter_groups_are_sorted_distinct_and_named_by_their_first_card() {
    let cards = table();
    let kinds = groups(&cards, false);
    assert_eq!(kinds, vec![(0, "Strength".to_string()), (2, "Movement".to_string())]);
    let bands = groups(&cards, true);
    assert_eq!(bands, vec![(1, "Small".to_string()), (3, "Large".to_string())]);
}

#[test]
fn building_offers_every_kind_and_strength_and_resets_stale_choices() {
    let mut panel = Panel::new();
    panel.choose_kind(&Kind { effect: Some(7), label: "Gone".to_string() });
    panel.choose_strength(Strength::Band(9, "Huge".to_string()));
    assert!(panel.ensure(table()));
    assert!(panel.built);
    assert_eq!(panel.kinds.len(), 3);
    assert_eq!(panel.kinds[0], Kind { effect: None, label: EVERY_KIND.to_string() });
    assert_eq!(panel.kinds[1], Kind { effect: Some(0), label: "Strength".to_string() });
    assert_eq!(panel.kinds[2], Kind { effect: Some(2), label: "Movement".to_string() });
    assert_eq!(
        panel.strengths,
        vec![
            Strength::Any,
            Strength::Active,
            Strength::Inactive,
            Strength::Band(1, "Small".to_string()),
            Strength::Band(3, "Large".to_string()),
        ]
    );
    assert_eq!(panel.kind, None);
    assert_eq!(panel.strength, Strength::Any);
    assert_eq!(panel.shown, vec![1, 4, 2, 3, 0]);
    // Built already: nothing changes.
    assert!(!panel.ensure(Vec::new()));
    assert_eq!(panel.cards.len(), 5);
}

#[test]
fn a_kept_choice_survives_a_rebuild() {
    let mut panel = Panel::new();
    panel.choose_kind(&Kind { effect: Some(2), label: "Movement".to_string() });
    panel.choose_strength(Strength::Band(3, "Large".to_string()));
    panel.ensure(table());
    assert_eq!(panel.kind, Some(2));
    assert_eq!(panel.strength, Strength::Band(3, "Large".to_string()));
    assert_eq!(panel.shown, Vec::<usize>::new());
    panel.invalidate();
    assert!(!panel.built);
    panel.choose_strength(Strength::Any);
    assert!(panel.ensure(table()));
    assert_eq!(panel.shown, vec![3, 0]);
}

#[test]
fn refreshing_and_banning_mark_cards() {
    let mut panel = Panel::new();
    panel.ensure(table());
    panel.refresh(&vec![false, false, true, false, false], &vec![true, false, true, false, false]);
    assert!(panel.cards[0].active);
    assert!(!panel.cards[2].active);
    assert!(panel.cards[2].banned);
    assert_eq!(panel.shown, vec![0, 1, 4, 3, 2]);
    panel.ban(&vec![true, false, false, false, false]);
    assert!(!panel.cards[0].active);
    assert!(panel.cards[0].banned);
    assert!(!panel.cards[2].banned);
    assert_eq!(panel.shown, vec![1, 4, 2, 3, 0]);
}

#[test]
fn searching_and_focusing_refresh_the_panel() {
    let mut panel = Panel::new();
    panel.ensure(table());
    panel.search("  ATTACK ".to_string());
    assert_eq!(panel.shown, vec![1, 4]);
    panel.focus(Some((14, 0)));
    assert_eq!(panel.shown, vec![4]);
    panel.focus(Some((14, 0)));
    assert_eq!(panel.shown, vec![4]);
    panel.focus(None);
    assert_eq!(panel.shown, vec![1, 4]);
}

#[test]
fn a_double_click_on_a_combo_opens_its_line() {
    let mut panel = Panel::new();
    assert_eq!(panel.click(3, 1000), None);
    assert_eq!(panel.click(3, 1400), Some(3));
    assert_eq!(panel.clicked, None);
    assert_eq!(panel.click(3, 1500), None);
    assert_eq!(panel.click(3, 1901), None);
    assert_eq!(panel.click(4, 1950), None);
}

#[test]
fn strengths_have_labels() {
    assert_eq!(Strength::Inactive.label(), "Inactive");
}
