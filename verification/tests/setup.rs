use battle_cats_complete::setup::{sandbox_setup, CatGod, PartLevels, SandboxOptions, SetupUnit};

fn options() -> SandboxOptions {
    SandboxOptions {
        tech_slots: 4,
        techs: vec![(1, 10, 5), (3, 20, 0), (9, 30, 0), (1, 11, 0)],
        treasures: vec![100, 50, 1],
        chapters: 4,
        treasure_stages: 48,
        altar: Some(29),
        cat_god: CatGod::Discounted,
        items_off: vec![false, true],
        item_slots: 3,
        speed_engaged: true,
        cannon: Some(2),
        style: None,
        foundation: Some(2),
        cannon_level: 0,
        style_level: 7,
        foundation_level: 9,
    }
}

#[test]
fn a_battle_is_set_up_from_the_options() {
    let unit = SetupUnit { unit: 5, form: 1, level: 30, plus: 2, talents: vec![], orbs: vec![(0, 3)] };
    let plan = sandbox_setup(&options(), vec![unit]);
    assert_eq!(plan.lineup.len(), 1);
    assert_eq!(plan.lineup[0].unit, 5);
    assert_eq!(plan.tech, vec![(1, 0), (11, 0), (0, 0), (20, 0)]);
    assert_eq!(plan.owned, vec![48, 24, 1, 48]);
    assert_eq!(plan.altar, Some(29));
    assert_eq!(plan.cat_god, CatGod::Discounted);
    assert_eq!(plan.items, vec![true, false, false]);
    assert!(plan.speed_engaged);
    assert_eq!((plan.cannon, plan.style, plan.foundation), (2, 0, 2));
    assert_eq!(
        plan.parts,
        vec![
            (0, PartLevels { cannon: 1, style: 7, foundation: 0 }),
            (2, PartLevels { cannon: 1, style: 0, foundation: 9 }),
        ]
    );
}

#[test]
fn the_first_tech_starts_at_level_one() {
    let mut o = options();
    o.techs = vec![];
    o.cannon = None;
    o.foundation = None;
    o.cannon_level = 4;
    let plan = sandbox_setup(&o, vec![]);
    assert_eq!(plan.tech, vec![(1, 0), (0, 0), (0, 0), (0, 0)]);
    assert_eq!(plan.parts, vec![(0, PartLevels { cannon: 4, style: 7, foundation: 9 })]);
}
