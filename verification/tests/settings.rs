use battle_cats_complete::settings::{parse_i32, LanguageDrag, LanguageOrder, NumberField};

fn list(items: &[&str]) -> Vec<String> {
    items.iter().map(|s| s.to_string()).collect()
}

#[test]
fn numbers_read_as_rust_reads_an_i32() {
    assert_eq!(parse_i32("42"), Some(42));
    assert_eq!(parse_i32("+7"), Some(7));
    assert_eq!(parse_i32("-2147483648"), Some(i32::MIN));
    assert_eq!(parse_i32("2147483647"), Some(i32::MAX));
    assert_eq!(parse_i32("2147483648"), None);
    assert_eq!(parse_i32("-2147483649"), None);
    assert_eq!(parse_i32(""), None);
    assert_eq!(parse_i32("-"), None);
    assert_eq!(parse_i32(" 1"), None);
    assert_eq!(parse_i32("1a"), None);
    assert_eq!(parse_i32("99999999999"), None);
    for text in ["0", "-0", "+12", "123456", "-99", "00042"] {
        assert_eq!(parse_i32(text), text.parse::<i32>().ok());
    }
}

#[test]
fn a_number_field_keeps_the_text_and_the_last_number() {
    let mut field = NumberField::showing(50);
    assert_eq!(field.text, "50");
    field.edit("6".to_string());
    assert_eq!(field.value, 6);
    field.edit("6x".to_string());
    assert_eq!(field.text, "6x");
    assert_eq!(field.value, 6);
    field.edit(String::new());
    assert_eq!(field.value, 6);
    field.reset(-3);
    assert_eq!(field.text, "-3");
    assert_eq!(field.value, -3);
}

#[test]
fn dragging_a_language_moves_it_within_the_list() {
    let mut order = LanguageOrder::new();
    let mut priority = list(&["en", "ja", "tw", "kr"]);
    order.start(1, &priority);
    assert!(order.is_dragging());
    assert_eq!(order.shift(&mut priority, 1), 0);
    assert_eq!(order.drag, LanguageDrag::Moving(1));
    assert_eq!(priority, list(&["en", "ja", "tw", "kr"]));
    assert_eq!(order.shift(&mut priority, 1), 1);
    assert_eq!(priority, list(&["en", "tw", "ja", "kr"]));
    assert_eq!(order.shift(&mut priority, 5), 1);
    assert_eq!(priority, list(&["en", "tw", "kr", "ja"]));
    assert_eq!(order.shift(&mut priority, -9), -3);
    assert_eq!(priority, list(&["ja", "en", "tw", "kr"]));
    assert_eq!(order.drag, LanguageDrag::Moving(0));
    order.end(&priority);
    assert!(!order.is_dragging());
    assert!(order.take_change());
    assert!(!order.take_change());
}

#[test]
fn a_drag_back_to_where_it_started_changes_nothing() {
    let mut order = LanguageOrder::new();
    let mut priority = list(&["en", "ja"]);
    order.start(0, &priority);
    order.shift(&mut priority, 0);
    order.shift(&mut priority, 1);
    order.shift(&mut priority, -1);
    order.end(&priority);
    assert!(!order.take_change());
    assert_eq!(order.shift(&mut priority, 1), 0);
}

#[test]
fn restoring_the_default_order_counts_only_a_real_change() {
    let mut order = LanguageOrder::new();
    let mut priority = list(&["en", "ja"]);
    order.restore(&mut priority, list(&["en", "ja"]));
    assert!(!order.take_change());
    order.restore(&mut priority, list(&["ja", "en"]));
    assert_eq!(priority, list(&["ja", "en"]));
    assert!(order.take_change());
}
