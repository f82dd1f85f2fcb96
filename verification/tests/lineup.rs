use battle_cats_complete::lineup::{
    earlier_of_rarity, found_lineups, Cargo, Cell, Deck, Drag, Placement,
};

type Point = (f32, f32);

#[test]
fn a_roster_press_released_in_place_adds_the_unit() {
    let mut deck: Deck<Point> = Deck::new();
    deck.press_fresh(7, 100);
    assert_eq!(deck.drag_end(150), Some(Placement::Add(7)));
    assert!(matches!(deck.drag, Drag::Idle));
}

#[test]
fn a_press_ripens_or_strays_into_a_drag() {
    let mut deck: Deck<Point> = Deck::new();
    deck.press_cell(Cell::Slot(2), true, 1000);
    deck.drag_move((1.0, 1.0), false, None, 1100);
    assert!(matches!(deck.drag, Drag::Pressed { cargo: Cargo::Held(Cell::Slot(2)), since: 1000, from: Some(_) }));
    deck.drag_move((2.0, 2.0), false, Some(Cell::Bench(1)), 1160);
    assert!(matches!(deck.drag, Drag::Moving { cargo: Cargo::Held(Cell::Slot(2)), onto: Some(Cell::Bench(1)), .. }));
    assert_eq!(deck.drag_end(1200), Some(Placement::Shift(Cell::Slot(2), Cell::Bench(1))));

    deck.press_fresh(9, 2000);
    deck.drag_move((50.0, 0.0), true, Some(Cell::Slot(0)), 2001);
    assert_eq!(deck.drag_end(2002), Some(Placement::Place(9, Cell::Slot(0))));

    deck.press_cell(Cell::Bench(0), true, 3000);
    deck.drag_move((50.0, 0.0), true, None, 3001);
    assert_eq!(deck.drag_end(3002), Some(Placement::Take(Cell::Bench(0))));

    deck.press_fresh(9, 4000);
    deck.drag_move((50.0, 0.0), true, None, 4001);
    assert_eq!(deck.drag_end(4002), None);
}

#[test]
fn an_empty_cell_cannot_be_pressed_and_a_drag_can_be_cancelled() {
    let mut deck: Deck<Point> = Deck::new();
    deck.press_cell(Cell::Slot(1), false, 10);
    assert!(matches!(deck.drag, Drag::Idle));
    deck.press_cell(Cell::Slot(1), true, 10);
    deck.drag_cancel();
    assert!(matches!(deck.drag, Drag::Idle));
    assert_eq!(deck.drag_end(20), None);
}

#[test]
fn a_double_click_on_a_cell_opens_its_unit() {
    let mut deck: Deck<Point> = Deck::new();
    deck.press_cell(Cell::Slot(0), true, 1000);
    assert_eq!(deck.drag_end(1010), None);
    deck.press_cell(Cell::Slot(0), true, 1300);
    assert_eq!(deck.drag_end(1310), Some(Placement::Open(Cell::Slot(0))));
    deck.press_cell(Cell::Slot(0), true, 1400);
    assert_eq!(deck.drag_end(1410), None);
    deck.press_cell(Cell::Slot(1), true, 1500);
    assert_eq!(deck.drag_end(1510), None);
    deck.press_cell(Cell::Slot(1), true, 2000);
    assert_eq!(deck.drag_end(2010), None);
}

#[test]
fn opening_a_unit_focuses_the_combos_and_dropping_it_closes() {
    let mut deck: Deck<Point> = Deck::new();
    deck.open(12, 1);
    assert!(deck.unit_open());
    assert!(!deck.orb_open());
    assert_eq!(deck.combos.focus, Some((12, 1)));
    deck.orb_slot = Some(0);
    assert!(deck.orb_open());
    deck.refocus(12, 2);
    assert_eq!(deck.combos.focus, Some((12, 2)));
    deck.dropped(Some(5));
    assert!(deck.unit_open());
    deck.dropped(Some(12));
    assert!(!deck.unit_open());
    assert_eq!(deck.orb_slot, None);
    assert_eq!(deck.combos.focus, None);
}

#[test]
fn deleting_a_lineup_takes_two_presses() {
    let mut deck: Deck<Point> = Deck::new();
    deck.open(3, 0);
    assert!(!deck.delete());
    assert!(deck.unit_open());
    assert!(deck.delete());
    assert!(!deck.unit_open());
    assert!(!deck.delete());
    deck.delete_expired();
    assert!(!deck.delete());
}

#[test]
fn loading_a_lineup_checks_the_index_and_closes() {
    let mut deck: Deck<Point> = Deck::new();
    deck.open(3, 0);
    deck.delete();
    assert_eq!(deck.load(1, 3), Some(1));
    assert!(!deck.unit_open());
    assert!(deck.deleting.value.is_none());
    assert_eq!(deck.load(3, 3), None);
}

#[test]
fn the_lineup_search_ignores_case() {
    let names = vec!["Tank Wall".to_string(), "speed RUN".to_string(), "Walls".to_string()];
    assert_eq!(found_lineups(&names, "WALL"), vec![0, 2]);
    assert_eq!(found_lineups(&names, ""), vec![0, 1, 2]);
    assert_eq!(found_lineups(&names, "run"), vec![1]);
    assert_eq!(found_lineups(&names, "zzz"), Vec::<usize>::new());
}

#[test]
fn fielded_units_count_earlier_slots_of_their_rarity() {
    let (slots, bench) = earlier_of_rarity(&vec![2, 3, 2, 2, 4], &vec![2, 5, 4]);
    assert_eq!(slots, vec![0, 0, 1, 2, 0]);
    assert_eq!(bench, vec![3, 0, 1]);
}
