use battle_cats_complete::orbs::{effect_name, effect_names, kept_trait};

#[test]
fn an_effect_name_is_the_first_column_before_its_placeholder() {
    assert_eq!(effect_name("Attack Up %@\tIncreases attack"), "Attack Up");
    assert_eq!(effect_name("  Defense:  \tx"), "Defense");
    assert_eq!(effect_name("Resist: %@ more"), "Resist");
    assert_eq!(effect_name("Plain"), "Plain");
    assert_eq!(effect_name("\tonly a second column"), "");
    assert_eq!(effect_name("Wide\u{3000}"), "Wide");
    assert_eq!(effect_name("A: :"), "A:");
}

#[test]
fn the_table_is_read_line_by_line() {
    let names = effect_names("Attack Up %@\tx\r\nDefense:\ty\n\nLast");
    assert_eq!(names, vec!["Attack Up".to_string(), "Defense".to_string(), String::new(), "Last".to_string()]);
    assert_eq!(effect_names("One\n"), vec!["One".to_string()]);
    assert!(effect_names("").is_empty());
}

#[test]
fn an_orb_keeps_its_trait_when_the_new_effect_offers_it() {
    assert_eq!(kept_trait(&vec![0, 3, 5], Some(3)), Some(3));
    assert_eq!(kept_trait(&vec![0, 3, 5], Some(7)), Some(0));
    assert_eq!(kept_trait(&vec![0, 3, 5], None), Some(0));
    assert_eq!(kept_trait(&vec![], Some(3)), None);
}
