use battle_cats_complete::config::{held_part, ConfigForm, PartSlot};
use battle_cats_complete::config::Part;

fn form() -> ConfigForm {
    ConfigForm {
        treasures: vec!["100".to_string(), "100".to_string()],
        techs: vec!["10+5".to_string()],
        altar_level: String::new(),
        items_off: vec![false, true],
        cannon: None,
        style: None,
        foundation: None,
        cannon_level: String::new(),
        style_level: String::new(),
        foundation_level: String::new(),
    }
}

#[test]
fn fields_take_only_typable_text_for_existing_rows() {
    let mut f = form();
    f.edit_treasure(1, "50".to_string());
    assert_eq!(f.treasures, vec!["100".to_string(), "50".to_string()]);
    f.edit_treasure(1, "5a".to_string());
    assert_eq!(f.treasures[1], "50");
    f.edit_treasure(2, "7".to_string());
    assert_eq!(f.treasures.len(), 2);
    f.edit_tech(0, "30+10".to_string());
    assert_eq!(f.techs[0], "30+10");
    f.edit_tech(0, "1234567".to_string());
    assert_eq!(f.techs[0], "30+10");
    f.edit_altar("29".to_string());
    assert_eq!(f.altar_level, "29");
    f.edit_altar("x".to_string());
    assert_eq!(f.altar_level, "29");
    f.edit_level(PartSlot::Style, "20".to_string());
    assert_eq!(f.style_level, "20");
    f.edit_level(PartSlot::Style, "-".to_string());
    assert_eq!(f.style_level, "20");
}

#[test]
fn items_and_parts_are_chosen() {
    let mut f = form();
    assert!(f.stocked(0));
    assert!(!f.stocked(1));
    assert!(f.stocked(9));
    f.set_item(0, false);
    assert!(!f.stocked(0));
    f.set_item(9, false);
    assert_eq!(f.items_off.len(), 2);
    f.choose_part(PartSlot::Foundation, 4);
    assert_eq!(f.foundation, Some(4));
    assert_eq!(f.cannon, None);
}

#[test]
fn the_held_part_is_the_chosen_one_or_the_first() {
    let parts = vec![Part::offered(0, false, "x"), Part::offered(3, true, "Slow"), Part::offered(5, true, "Wall")];
    assert_eq!(held_part(&parts, Some(5)), Some(2));
    assert_eq!(held_part(&parts, None), Some(0));
    assert_eq!(held_part(&parts, Some(9)), Some(0));
    assert_eq!(held_part(&Vec::new(), Some(9)), None);
}
