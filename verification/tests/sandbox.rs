use battle_cats_complete::config::{Formation, Part};
use battle_cats_complete::orbs::{effect_label, Aim, Choice, Grade, Layer};
use battle_cats_complete::replay::{pick_title, Pick};
use battle_cats_complete::sandbox::{
    clamped, click, cost_label, level_entry, level_label, percentage, typable, treasures_owned,
};
use battle_cats_complete::combos::Strength;

#[test]
fn number_fields_take_short_digit_text() {
    assert!(typable("50+10"));
    assert!(typable("100%"));
    assert!(!typable("1234567"));
    assert!(!typable("5a"));
}

#[test]
fn the_altar_caps_levels_and_drops_plus_levels() {
    assert_eq!(clamped(50, 10, None), (50, 10));
    assert_eq!(clamped(50, 10, Some(29)), (30, 0));
    assert_eq!(clamped(20, 10, Some(29)), (20, 0));
    assert_eq!(clamped(50, 10, Some(-1)), (50, 0));
}

#[test]
fn levels_are_labelled() {
    assert_eq!(level_label(30, 0), "Lv30");
    assert_eq!(level_label(30, 5), "Lv30+5");
    assert_eq!(level_entry(30, 0), "30+0");
}

#[test]
fn costs_show_with_the_cent_sign() {
    assert_eq!(cost_label(Some(1500)), Some("1500\u{a2}".to_string()));
    assert_eq!(cost_label(Some(-1)), None);
    assert_eq!(cost_label(None), None);
}

#[test]
fn percentages_are_held_between_one_and_a_hundred() {
    assert_eq!(percentage(""), Some((None, String::new())));
    assert_eq!(percentage("0"), Some((Some(1), "1".to_string())));
    assert_eq!(percentage("250"), Some((Some(100), "100".to_string())));
    assert_eq!(percentage("99999999999"), Some((Some(100), "100".to_string())));
    assert_eq!(percentage("42"), Some((Some(42), "42".to_string())));
    assert_eq!(percentage("4x"), None);
}

#[test]
fn formations_and_layers_are_named() {
    assert_eq!(Formation::Single.label(), "One Row");
    assert!(Formation::Double.two_rows());
    assert_eq!(Layer::Effect.sheet(), "equipment_effect");
}

#[test]
fn an_unnamed_empty_part_reads_none() {
    assert_eq!(Part::offered(0, false, "").label, "None");
    assert_eq!(Part::offered(3, false, "Cannon").label, "Cannon");
}

#[test]
fn orb_effects_and_traits_have_names() {
    let effects = vec!["Attack Up".to_string(), String::new()];
    assert_eq!(effect_label(&effects, 0), "Attack Up");
    assert_eq!(effect_label(&effects, 1), "Effect 1");
    assert_eq!(effect_label(&effects, -2), "Effect -2");
    assert_eq!(Choice::new(&effects, 5).label, "Effect 5");
    assert_eq!(Aim(0).label(), "Red");
    assert_eq!(Aim(11).label(), "Aku");
    assert_eq!(Aim(12).label(), "Trait 12");
    assert_eq!(Grade(1).label(&vec!["D".to_string(), "C".to_string()]), "C");
    assert_eq!(Grade(5).label(&vec![]), "?");
    assert_eq!(Strength::Any.label(), "Any Strength");
    assert_eq!(Strength::Band(2, "Large".to_string()).label(), "Large");
}

#[test]
fn replays_are_titled() {
    assert_eq!(pick_title(&Pick::Latest, "ignored"), "Latest Battle");
    assert_eq!(pick_title(&Pick::Bundle("x".to_string()), "My Run"), "My Run");
}

#[test]
fn a_second_click_soon_on_the_same_line_opens_it() {
    let (held, opened) = click(None, 2, 1_000);
    assert_eq!(opened, None);
    let (held, opened) = click(held, 2, 1_300);
    assert_eq!(opened, Some(2));
    assert_eq!(held, None);
    let (held, _) = click(None, 2, 0);
    assert_eq!(click(held, 2, 401).1, None);
    assert_eq!(click(Some((1, 0)), 2, 10).1, None);
}

#[test]
fn owned_treasures_round_up() {
    assert_eq!(treasures_owned(48, 100), 48);
    assert_eq!(treasures_owned(48, 50), 24);
    assert_eq!(treasures_owned(48, 1), 1);
    assert_eq!(treasures_owned(48, 0), 0);
}
