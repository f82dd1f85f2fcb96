use battle_cats_complete::roster::{banner_form, cat_matches, enemy_matches, tooltip_rows};

#[test]
fn enemies_match_by_name_or_by_id_for_digit_searches() {
    assert!(enemy_matches("012", "Doge", "dog"));
    assert!(enemy_matches("012", "Doge", "12"));
    assert!(!enemy_matches("012", "Doge", "13"));
    assert!(!enemy_matches("012", "Doge", "cat"));
    assert!(enemy_matches("012", "Doge", ""));
}

#[test]
fn cats_match_by_id_or_any_form_name() {
    let names = vec![Some("Cat".to_string()), None, Some("Jamiera Cat".to_string())];
    assert!(cat_matches("001", &names, "01"));
    assert!(cat_matches("001", &names, "jamiera"));
    assert!(!cat_matches("001", &names, "tank"));
    assert!(!cat_matches("001", &Vec::new(), "x"));
}

#[test]
fn a_banner_comes_from_the_nearest_lower_form_with_one() {
    let banners = vec![true, false, true, false];
    assert_eq!(banner_form(&banners, 3), Some(2));
    assert_eq!(banner_form(&banners, 1), Some(0));
    assert_eq!(banner_form(&banners, 9), Some(2));
    assert_eq!(banner_form(&vec![false, false, true], 0), Some(2));
    assert_eq!(banner_form(&vec![false, false], 1), None);
}

#[test]
fn a_cat_tooltip_lists_the_forms_it_has() {
    let names = vec!["Cat".to_string(), "Macho Cat".to_string(), "".to_string(), "x".to_string()];
    let rows = tooltip_rows("000", &[true, true, false, false], &names);
    assert_eq!(
        rows,
        vec![
            ("ID".to_string(), "000".to_string()),
            ("Normal".to_string(), "Cat".to_string()),
            ("Evolved".to_string(), "Macho Cat".to_string()),
        ]
    );
}
