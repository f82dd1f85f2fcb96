use battle_cats_complete::stage_text::{
    crown_enabled, crown_label, crowns_shown, format_base_hp_percentage, format_boss_type, format_drop_chance,
    format_enemy_amount, format_enemy_respawn, format_kill_count, format_layer, format_score, format_spawn_timer,
    format_treasure_rule, skill_image_id, skill_image_name, BossType, Category, EnemyAmount, StageSelection,
    bonus_key, enemy_table_layout, explanation_key, table_headers, fill_markers, format_score_bonus, format_special_rule, Rule, RuleKind,
};

#[test]
fn spawn_counts_and_timers() {
    assert_eq!(format_enemy_amount(EnemyAmount::Infinite), "\u{221e}");
    assert_eq!(format_enemy_amount(EnemyAmount::Limit(3)), "3");
    assert_eq!(format_spawn_timer(0, 120, 100), "120f");
    assert_eq!(format_spawn_timer(0, 120, 90), "-");
    assert_eq!(format_spawn_timer(1, 120, 90), "120f");
    assert_eq!(format_enemy_respawn(EnemyAmount::Limit(1), 5, 9), "-");
    assert_eq!(format_enemy_respawn(EnemyAmount::Infinite, 5, 5), "5f");
    assert_eq!(format_enemy_respawn(EnemyAmount::Limit(2), 5, 9), "5f ~ 9f");
}

#[test]
fn layers_bosses_and_triggers() {
    assert_eq!(format_layer(0, 0), "0");
    assert_eq!(format_layer(-1, 2), "-1 ~ 2");
    assert_eq!(format_boss_type(BossType::Regular), "-");
    assert_eq!(format_boss_type(BossType::ScreenShake), "Yes (Shake)");
    assert_eq!(format_kill_count(0), "-");
    assert_eq!(format_kill_count(12), "12");
    assert_eq!(format_score(3000), "3000");
    assert_eq!(format_base_hp_percentage(100, false), "-");
    assert_eq!(format_base_hp_percentage(70, false), "70%");
    assert_eq!(format_base_hp_percentage(70, true), "70");
}

#[test]
fn treasures() {
    assert_eq!(format_drop_chance(30, 0), "30%");
    assert_eq!(format_drop_chance(30, -3), "100%");
    assert_eq!(format_treasure_rule(1), "Once, Then Unlimited");
    assert_eq!(format_treasure_rule(-4), "Guaranteed (Unlimited)");
    assert_eq!(format_treasure_rule(7), "Unknown Rule");
}

#[test]
fn crowns() {
    assert!(!crowns_shown(1));
    assert!(crowns_shown(4));
    assert!(crown_enabled(-1, 3));
    assert!(crown_enabled(2, 2));
    assert!(!crown_enabled(2, 1));
    assert!(crown_enabled(-2, 254));
    assert_eq!(crown_label(0), "1");
}

#[test]
fn chapters_are_named_and_ordered() {
    assert_eq!(Category::EmpireOfCats.display_name(), "Empire of Cats");
    assert_eq!(Category::TowersAndCitadels.display_name(), "Towers & Citadels");
    assert_eq!(Category::EmpireOfCats.sort_order(), 0);
    assert_eq!(Category::Unknown("PT".to_string()).sort_order(), 63);
    assert_eq!(Category::Unknown("XY".to_string()).sort_order(), 99);
}

#[test]
fn talent_name_pictures() {
    assert_eq!(skill_image_id(5, 9), Some(5));
    assert_eq!(skill_image_id(0, 9), Some(9));
    assert_eq!(skill_image_id(-1, 0), None);
    assert_eq!(skill_image_name(7), "Skill_name_007.png");
    assert_eq!(skill_image_name(42), "Skill_name_042.png");
    assert_eq!(skill_image_name(123), "Skill_name_123.png");
}

#[test]
fn choosing_a_chapter_clears_the_map_and_stage() {
    let mut selection = StageSelection::new();
    selection.select_category(Category::EmpireOfCats);
    selection.select_map(3);
    selection.select_stage(5);
    assert_eq!(selection.stage, Some(5));
    selection.select_map(4);
    assert_eq!(selection.stage, None);
    selection.select_stage(1);
    selection.select_category(Category::IntoTheFuture);
    assert_eq!(selection.map, None);
    assert_eq!(selection.stage, None);
}

#[test]
fn markers_are_filled_in_order() {
    assert_eq!(fill_markers("Deploy at most %d cats, %d each", &vec![3, -2]), "Deploy at most 3 cats, -2 each");
    assert_eq!(fill_markers("%d%d", &vec![1]), "1%d");
    assert_eq!(fill_markers("no markers", &vec![1, 2]), "no markers");
    assert_eq!(fill_markers("%", &vec![1]), "%");
    assert_eq!(fill_markers("100%d%", &vec![]), "100%d%");
}

#[test]
fn a_rule_explanation_key_comes_from_the_label_or_the_name() {
    assert_eq!(explanation_key("RuleText", "RarityLimitName"), "RuleText");
    assert_eq!(explanation_key("", "  RarityLimitName "), "RarityLimitExplanation");
    assert_eq!(explanation_key("", "Name"), "Explanation");
    assert_eq!(explanation_key("", "RarityLimit"), "");
    assert_eq!(bonus_key("", "BonusName"), "BonusName");
    assert_eq!(bonus_key("Text", "BonusName"), "Text");
}

#[test]
fn special_rules_fill_the_explanation_or_fall_back_to_names() {
    let rules = vec![
        Rule { kind: RuleKind::RarityLimit, params: vec![1, 2] },
        Rule { kind: RuleKind::Unknown(7), params: vec![] },
    ];
    assert_eq!(format_special_rule("Rarity %d up to %d", &rules), "Rarity 1 up to 2");
    assert_eq!(format_special_rule("", &rules), "Rarity Limit [1, 2]\nUnknown Rule 7 []");
    assert_eq!(format_special_rule("", &vec![]), "");
}

#[test]
fn score_bonuses_fill_their_text_or_name_the_missing_key() {
    let bonuses = vec![vec![10], vec![20, 30]];
    assert_eq!(format_score_bonus("+%d%% and %d, %d", "Key", &bonuses), "+10%% and 20, 30");
    assert_eq!(format_score_bonus("", "Key", &bonuses), "\u{3010}Key\u{3011} Localization data missing.");
}

#[test]
fn the_enemy_table_adapts_to_its_enemies() {
    assert_eq!(enemy_table_layout(&vec![0, 0], &vec![100, 100], &vec![(100, 100), (200, 200)], None), (false, false, false));
    assert_eq!(enemy_table_layout(&vec![0, 5], &vec![100, 300], &vec![(100, 150)], None), (true, true, true));
    assert_eq!(enemy_table_layout(&vec![], &vec![], &vec![(100, 101)], Some(50)), (false, false, false));
    assert_eq!(enemy_table_layout(&vec![], &vec![], &vec![(100, 102)], Some(50)), (false, false, true));
    assert_eq!(table_headers(true, true), ("Magnification %\n(HP% / ATK%)", "Dmg #"));
    assert_eq!(table_headers(false, false), ("Magnification %", "Base %"));
}
