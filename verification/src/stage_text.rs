//! How stage data reads in the stage tables: spawn timers, respawn ranges, layers,
//! boss flags, treasure rules, chapter names, and the texts of special rules and score
//! bonuses with their numbers filled in.

use vstd::prelude::*;
use crate::combos::{spec_trim, trim};
use crate::text::{all_digits, chars_of, dec, dec_int, dec_value, lemma_dec_digits, lemma_dec_injective, lemma_dec_round_trip, decimal, decimal_signed, push_char, push_chars, push_decimal, push_str, string_of_range};

verus! {

/// How many of an enemy a stage spawns.
#[derive(Debug, Clone, Copy, PartialEq, Eq, Structural)]
pub enum EnemyAmount {
    Infinite,
    Limit(u32),
}

/// Whether an enemy is a boss.
#[derive(Debug, Clone, Copy, PartialEq, Eq, Structural)]
pub enum BossType {
    /// Not a boss.
    Regular,
    Boss,
    ScreenShake,
    Unknown(i32),
}

/// The spawn count: a number, or the infinity sign.
pub open spec fn spec_enemy_amount(amount: EnemyAmount) -> Seq<char> {
    match amount {
        EnemyAmount::Infinite => seq!['\u{221e}'],
        EnemyAmount::Limit(n) => dec(n as nat),
    }
}

/// The spawn count: a number, or the infinity sign.
pub fn format_enemy_amount(amount: EnemyAmount) -> (s: String)
    ensures
        s@ == spec_enemy_amount(amount),
{
    match amount {
        EnemyAmount::Infinite => {
            let mut s = String::new();
            push_char(&mut s, '\u{221e}');
            assert(s@ =~= seq!['\u{221e}']);
            s
        },
        EnemyAmount::Limit(n) => decimal(n as u64),
    }
}

/// A number of frames, written with the frame suffix.
pub open spec fn frames(n: nat) -> Seq<char> {
    dec(n) + "f"@
}

/// The first spawn: none (a dash) for an enemy waiting on the base's health unless it
/// also has a timer, otherwise the frame it appears at.
pub open spec fn spec_spawn_timer(time_flag: u32, start_frame: u32, base_hp_perc: u32) -> Seq<char> {
    if base_hp_perc != 100 && time_flag == 0 {
        "-"@
    } else {
        frames(start_frame as nat)
    }
}

/// The first spawn of an enemy.
pub fn format_spawn_timer(time_flag: u32, start_frame: u32, base_hp_perc: u32) -> (s: String)
    ensures
        s@ == spec_spawn_timer(time_flag, start_frame, base_hp_perc),
{
    let mut s = String::new();
    if base_hp_perc != 100 && time_flag == 0 {
        push_str(&mut s, "-");
        assert(s@ =~= "-"@);
        return s;
    }
    push_decimal(&mut s, start_frame as u64);
    push_str(&mut s, "f");
    assert(s@ =~= frames(start_frame as nat));
    s
}

/// The respawn time: none for an enemy that spawns once, one frame count when the range
/// is a single value, otherwise the range.
pub open spec fn spec_enemy_respawn(amount: EnemyAmount, min: u32, max: u32) -> Seq<char> {
    if amount == EnemyAmount::Limit(1) {
        "-"@
    } else if min == max {
        frames(min as nat)
    } else {
        frames(min as nat) + " ~ "@ + frames(max as nat)
    }
}

/// The respawn time of an enemy.
pub fn format_enemy_respawn(amount: EnemyAmount, min: u32, max: u32) -> (s: String)
    ensures
        s@ == spec_enemy_respawn(amount, min, max),
{
    let mut s = String::new();
    if amount == EnemyAmount::Limit(1) {
        push_str(&mut s, "-");
        assert(s@ =~= "-"@);
        return s;
    }
    push_decimal(&mut s, min as u64);
    push_str(&mut s, "f");
    if min != max {
        push_str(&mut s, " ~ ");
        push_decimal(&mut s, max as u64);
        push_str(&mut s, "f");
    }
    assert(s@ =~= spec_enemy_respawn(amount, min, max));
    s
}

/// The layers an enemy may walk on: one number, or the range.
pub open spec fn spec_layer(min: i32, max: i32) -> Seq<char> {
    if min == max {
        dec_int(min as int)
    } else {
        dec_int(min as int) + " ~ "@ + dec_int(max as int)
    }
}

/// The layers an enemy may walk on.
pub fn format_layer(min: i32, max: i32) -> (s: String)
    ensures
        s@ == spec_layer(min, max),
{
    let mut s = decimal_signed(min as i64);
    if min != max {
        push_str(&mut s, " ~ ");
        let high = decimal_signed(max as i64);
        push_str(&mut s, high.as_str());
    }
    assert(s@ =~= spec_layer(min, max));
    s
}

/// Whether an enemy is a boss, as shown.
pub open spec fn spec_boss_type(boss: BossType) -> Seq<char> {
    match boss {
        BossType::Regular => "-"@,
        BossType::Boss => "Yes"@,
        BossType::ScreenShake => "Yes (Shake)"@,
        BossType::Unknown(_) => "Unknown"@,
    }
}

/// Whether an enemy is a boss, as shown.
pub fn format_boss_type(boss: BossType) -> (s: &'static str)
    ensures
        s@ == spec_boss_type(boss),
{
    match boss {
        BossType::Regular => "-",
        BossType::Boss => "Yes",
        BossType::ScreenShake => "Yes (Shake)",
        BossType::Unknown(_) => "Unknown",
    }
}

/// A count that reads as a dash when it is zero.
pub open spec fn spec_count_or_dash(n: u32) -> Seq<char> {
    if n == 0 {
        "-"@
    } else {
        dec(n as nat)
    }
}

fn count_or_dash(n: u32) -> (s: String)
    ensures
        s@ == spec_count_or_dash(n),
{
    if n == 0 {
        let mut s = String::new();
        push_str(&mut s, "-");
        assert(s@ =~= "-"@);
        s
    } else {
        decimal(n as u64)
    }
}

/// The kill count that triggers an enemy, or a dash for none.
pub fn format_kill_count(kill_count: u32) -> (s: String)
    ensures
        s@ == spec_count_or_dash(kill_count),
{
    count_or_dash(kill_count)
}

/// The score that triggers an enemy, or a dash for none.
pub fn format_score(score: u32) -> (s: String)
    ensures
        s@ == spec_count_or_dash(score),
{
    count_or_dash(score)
}

/// The base health at which an enemy appears: the raw value on dojo stages, a dash at
/// full health, otherwise a percentage.
pub open spec fn spec_base_hp(base_hp_perc: u32, is_dojo_mechanic: bool) -> Seq<char> {
    if is_dojo_mechanic {
        dec(base_hp_perc as nat)
    } else if base_hp_perc == 100 {
        "-"@
    } else {
        dec(base_hp_perc as nat) + "%"@
    }
}

/// The base health at which an enemy appears.
pub fn format_base_hp_percentage(base_hp_perc: u32, is_dojo_mechanic: bool) -> (s: String)
    ensures
        s@ == spec_base_hp(base_hp_perc, is_dojo_mechanic),
{
    if is_dojo_mechanic {
        return decimal(base_hp_perc as u64);
    }
    let mut s = String::new();
    if base_hp_perc == 100 {
        push_str(&mut s, "-");
        assert(s@ =~= "-"@);
        return s;
    }
    push_decimal(&mut s, base_hp_perc as u64);
    push_str(&mut s, "%");
    assert(s@ =~= spec_base_hp(base_hp_perc, is_dojo_mechanic));
    s
}

/// The chance of a treasure: certain for the guaranteed rules, otherwise the raw chance.
pub open spec fn spec_drop_chance(raw_chance: u32, drop_rule: i32) -> Seq<char> {
    if drop_rule == -3 || drop_rule == -4 {
        "100%"@
    } else {
        dec(raw_chance as nat) + "%"@
    }
}

/// The chance of a treasure.
pub fn format_drop_chance(raw_chance: u32, drop_rule: i32) -> (s: String)
    ensures
        s@ == spec_drop_chance(raw_chance, drop_rule),
{
    let mut s = String::new();
    if drop_rule == -3 || drop_rule == -4 {
        push_str(&mut s, "100%");
        assert(s@ =~= "100%"@);
        return s;
    }
    push_decimal(&mut s, raw_chance as u64);
    push_str(&mut s, "%");
    assert(s@ =~= spec_drop_chance(raw_chance, drop_rule));
    s
}

/// A guaranteed treasure (dropped once, or every time) always shows as a certain drop,
/// whatever its raw chance; any other treasure shows a percentage that grows with its
/// raw chance, so two different raw chances never read the same.
pub proof fn law_guaranteed_drops_read_certain(raw_chance: u32, other: u32, drop_rule: i32)
    ensures
        drop_rule == -3 || drop_rule == -4 ==> spec_drop_chance(raw_chance, drop_rule) == "100%"@
            && spec_drop_chance(raw_chance, drop_rule) == spec_drop_chance(other, drop_rule),
        drop_rule != -3 && drop_rule != -4 && raw_chance != other ==>
            spec_drop_chance(raw_chance, drop_rule) != spec_drop_chance(other, drop_rule),
        drop_rule != -3 && drop_rule != -4 ==> ({
            let t = spec_drop_chance(raw_chance, drop_rule);
            t.len() >= 2 && t.last() == '%' && all_digits(t.drop_last()) && dec_value(t.drop_last()) == raw_chance
        }),
{
    if drop_rule != -3 && drop_rule != -4 {
        let t = spec_drop_chance(raw_chance, drop_rule);
        reveal_strlit("%");
        assert(t.drop_last() =~= dec(raw_chance as nat));
        lemma_dec_round_trip(raw_chance as nat);
        lemma_dec_digits(raw_chance as nat);
    }
    if drop_rule != -3 && drop_rule != -4 && raw_chance != other {
        let a = dec(raw_chance as nat);
        let b = dec(other as nat);
        if spec_drop_chance(raw_chance, drop_rule) == spec_drop_chance(other, drop_rule) {
            assert(a + "%"@ == b + "%"@);
            assert((a + "%"@).len() == (b + "%"@).len());
            assert(a =~= (a + "%"@).subrange(0, a.len() as int));
            assert(b =~= (b + "%"@).subrange(0, b.len() as int));
            lemma_dec_injective(raw_chance as nat, other as nat);
        }
    }
}

/// How often a treasure can drop.
pub open spec fn spec_treasure_rule(drop_rule: i32) -> Seq<char> {
    if drop_rule == 1 {
        "Once, Then Unlimited"@
    } else if drop_rule == 0 {
        "Unlimited"@
    } else if drop_rule == -1 {
        "Unlimited (%)"@
    } else if drop_rule == -3 {
        "Guaranteed (Once)"@
    } else if drop_rule == -4 {
        "Guaranteed (Unlimited)"@
    } else {
        "Unknown Rule"@
    }
}

/// How often a treasure can drop.
pub fn format_treasure_rule(drop_rule: i32) -> (s: &'static str)
    ensures
        s@ == spec_treasure_rule(drop_rule),
{
    match drop_rule {
        1 => "Once, Then Unlimited",
        0 => "Unlimited",
        -1 => "Unlimited (%)",
        -3 => "Guaranteed (Once)",
        -4 => "Guaranteed (Unlimited)",
        _ => "Unknown Rule",
    }
}

/// Whether the crown picker is shown: only for stages with more than one crown.
pub open spec fn spec_crowns_shown(max_crowns: u8) -> bool {
    max_crowns > 1
}

/// Whether the crown picker is shown.
pub fn crowns_shown(max_crowns: u8) -> (b: bool)
    ensures
        b == spec_crowns_shown(max_crowns),
{
    max_crowns > 1
}

/// Whether a crown can be picked: every crown when the stage targets none (-1),
/// otherwise only the targeted one (its number read as a byte).
pub open spec fn spec_crown_enabled(target_crowns: i8, crown: u8) -> bool {
    target_crowns == -1 || (if target_crowns >= 0 { target_crowns as int } else { target_crowns + 256 }) == crown
}

/// Whether a crown can be picked.
pub fn crown_enabled(target_crowns: i8, crown: u8) -> (b: bool)
    ensures
        b == spec_crown_enabled(target_crowns, crown),
{
    if target_crowns == -1 {
        return true;
    }
    let byte: u8 = if target_crowns >= 0 { target_crowns as u8 } else { (target_crowns as i16 + 256) as u8 };
    byte == crown
}

/// The label of a crown button: its number counted from one.
pub fn crown_label(crown: u8) -> (s: String)
    ensures
        s@ == dec(crown as nat + 1),
{
    decimal(crown as u64 + 1)
}

/// A chapter of stages.
#[derive(Debug, Clone, PartialEq, Eq)]
pub enum Category {
    StoriesOfLegend,
    EventStages,
    CollabStages,
    EmpireOfCats,
    IntoTheFuture,
    CatsOfTheCosmos,
    ExtraStages,
    DojoHallOfInitiates,
    TowersAndCitadels,
    DojoRankingEvents,
    ChallengeBattle,
    UncannyLegends,
    CataminStages,
    LegendQuest,
    ZombieOutbreaks,
    GauntletStages,
    EnigmaStages,
    CollabGauntletStages,
    AkuRealms,
    BehemothCulling,
    Labyrinth,
    ZeroLegends,
    OtherworldColosseum,
    CatclawChampionships,
    FeverRush,
    Unknown(String),
}

/// The known chapter a name is the display name of, if any.
pub open spec fn chapter_named(s: Seq<char>) -> Option<Category> {
    if s == "Stories of Legend"@ { Some(Category::StoriesOfLegend) } else
    if s == "Event Stages"@ { Some(Category::EventStages) } else
    if s == "Collab Stages"@ { Some(Category::CollabStages) } else
    if s == "Empire of Cats"@ { Some(Category::EmpireOfCats) } else
    if s == "Into the Future"@ { Some(Category::IntoTheFuture) } else
    if s == "Cats of the Cosmos"@ { Some(Category::CatsOfTheCosmos) } else
    if s == "Extra Stages"@ { Some(Category::ExtraStages) } else
    if s == "Dojo Hall of Initiates"@ { Some(Category::DojoHallOfInitiates) } else
    if s == "Towers & Citadels"@ { Some(Category::TowersAndCitadels) } else
    if s == "Dojo Ranking Events"@ { Some(Category::DojoRankingEvents) } else
    if s == "Challenge Battle"@ { Some(Category::ChallengeBattle) } else
    if s == "Uncanny Legends"@ { Some(Category::UncannyLegends) } else
    if s == "Catamin Stages"@ { Some(Category::CataminStages) } else
    if s == "Legend Quest"@ { Some(Category::LegendQuest) } else
    if s == "Zombie Outbreaks"@ { Some(Category::ZombieOutbreaks) } else
    if s == "Gauntlet Stages"@ { Some(Category::GauntletStages) } else
    if s == "Enigma Stages"@ { Some(Category::EnigmaStages) } else
    if s == "Collab Gauntlet Stages"@ { Some(Category::CollabGauntletStages) } else
    if s == "Aku Realms"@ { Some(Category::AkuRealms) } else
    if s == "Behemoth Culling"@ { Some(Category::BehemothCulling) } else
    if s == "Labyrinth"@ { Some(Category::Labyrinth) } else
    if s == "Zero Legends"@ { Some(Category::ZeroLegends) } else
    if s == "Otherworld Colosseum"@ { Some(Category::OtherworldColosseum) } else
    if s == "Catclaw Championships"@ { Some(Category::CatclawChampionships) } else
    if s == "Fever Rush"@ { Some(Category::FeverRush) } else { None }
}

proof fn lemma_chapter_found(c: Category)
    requires
        !(c is Unknown),
    ensures
        chapter_named(spec_display_name(c)) == Some(c),
{
    match c {
        Category::StoriesOfLegend => {
            reveal_strlit("Stories of Legend");
            assert(chapter_named("Stories of Legend"@) == Some(Category::StoriesOfLegend));
        }
        Category::EventStages => {
            reveal_strlit("Event Stages");
            reveal_strlit("Stories of Legend");
            assert("Event Stages"@.len() != "Stories of Legend"@.len());
            assert(chapter_named("Event Stages"@) == Some(Category::EventStages));
        }
        Category::CollabStages => {
            reveal_strlit("Collab Stages");
            reveal_strlit("Stories of Legend");
            assert("Collab Stages"@.len() != "Stories of Legend"@.len());
            reveal_strlit("Event Stages");
            assert("Collab Stages"@.len() != "Event Stages"@.len());
            assert(chapter_named("Collab Stages"@) == Some(Category::CollabStages));
        }
        Category::EmpireOfCats => {
            reveal_strlit("Empire of Cats");
            reveal_strlit("Stories of Legend");
            assert("Empire of Cats"@.len() != "Stories of Legend"@.len());
            reveal_strlit("Event Stages");
            assert("Empire of Cats"@.len() != "Event Stages"@.len());
            reveal_strlit("Collab Stages");
            assert("Empire of Cats"@.len() != "Collab Stages"@.len());
            assert(chapter_named("Empire of Cats"@) == Some(Category::EmpireOfCats));
        }
        Category::IntoTheFuture => {
            reveal_strlit("Into the Future");
            reveal_strlit("Stories of Legend");
            assert("Into the Future"@.len() != "Stories of Legend"@.len());
            reveal_strlit("Event Stages");
            assert("Into the Future"@.len() != "Event Stages"@.len());
            reveal_strlit("Collab Stages");
            assert("Into the Future"@.len() != "Collab Stages"@.len());
            reveal_strlit("Empire of Cats");
            assert("Into the Future"@.len() != "Empire of Cats"@.len());
            assert(chapter_named("Into the Future"@) == Some(Category::IntoTheFuture));
        }
        Category::CatsOfTheCosmos => {
            reveal_strlit("Cats of the Cosmos");
            reveal_strlit("Stories of Legend");
            assert("Cats of the Cosmos"@.len() != "Stories of Legend"@.len());
            reveal_strlit("Event Stages");
            assert("Cats of the Cosmos"@.len() != "Event Stages"@.len());
            reveal_strlit("Collab Stages");
            assert("Cats of the Cosmos"@.len() != "Collab Stages"@.len());
            reveal_strlit("Empire of Cats");
            assert("Cats of the Cosmos"@.len() != "Empire of Cats"@.len());
            reveal_strlit("Into the Future");
            assert("Cats of the Cosmos"@.len() != "Into the Future"@.len());
            assert(chapter_named("Cats of the Cosmos"@) == Some(Category::CatsOfTheCosmos));
        }
        Category::ExtraStages => {
            reveal_strlit("Extra Stages");
            reveal_strlit("Stories of Legend");
            assert("Extra Stages"@.len() != "Stories of Legend"@.len());
            reveal_strlit("Event Stages");
            assert("Extra Stages"@[1] != "Event Stages"@[1]);
            reveal_strlit("Collab Stages");
            assert("Extra Stages"@.len() != "Collab Stages"@.len());
            reveal_strlit("Empire of Cats");
            assert("Extra Stages"@.len() != "Empire of Cats"@.len());
            reveal_strlit("Into the Future");
            assert("Extra Stages"@.len() != "Into the Future"@.len());
            reveal_strlit("Cats of the Cosmos");
            assert("Extra Stages"@.len() != "Cats of the Cosmos"@.len());
            assert(chapter_named("Extra Stages"@) == Some(Category::ExtraStages));
        }
        Category::DojoHallOfInitiates => {
            reveal_strlit("Dojo Hall of Initiates");
            reveal_strlit("Stories of Legend");
            assert("Dojo Hall of Initiates"@.len() != "Stories of Legend"@.len());
            reveal_strlit("Event Stages");
            assert("Dojo Hall of Initiates"@.len() != "Event Stages"@.len());
            reveal_strlit("Collab Stages");
            assert("Dojo Hall of Initiates"@.len() != "Collab Stages"@.len());
            reveal_strlit("Empire of Cats");
            assert("Dojo Hall of Initiates"@.len() != "Empire of Cats"@.len());
            reveal_strlit("Into the Future");
            assert("Dojo Hall of Initiates"@.len() != "Into the Future"@.len());
            reveal_strlit("Cats of the Cosmos");
            assert("Dojo Hall of Initiates"@.len() != "Cats of the Cosmos"@.len());
            reveal_strlit("Extra Stages");
            assert("Dojo Hall of Initiates"@.len() != "Extra Stages"@.len());
            assert(chapter_named("Dojo Hall of Initiates"@) == Some(Category::DojoHallOfInitiates));
        }
        Category::TowersAndCitadels => {
            reveal_strlit("Towers & Citadels");
            reveal_strlit("Stories of Legend");
            assert("Towers & Citadels"@[0] != "Stories of Legend"@[0]);
            reveal_strlit("Event Stages");
            assert("Towers & Citadels"@.len() != "Event Stages"@.len());
            reveal_strlit("Collab Stages");
            assert("Towers & Citadels"@.len() != "Collab Stages"@.len());
            reveal_strlit("Empire of Cats");
            assert("Towers & Citadels"@.len() != "Empire of Cats"@.len());
            reveal_strlit("Into the Future");
            assert("Towers & Citadels"@.len() != "Into the Future"@.len());
            reveal_strlit("Cats of the Cosmos");
            assert("Towers & Citadels"@.len() != "Cats of the Cosmos"@.len());
            reveal_strlit("Extra Stages");
            assert("Towers & Citadels"@.len() != "Extra Stages"@.len());
            reveal_strlit("Dojo Hall of Initiates");
            assert("Towers & Citadels"@.len() != "Dojo Hall of Initiates"@.len());
            assert(chapter_named("Towers & Citadels"@) == Some(Category::TowersAndCitadels));
        }
        Category::DojoRankingEvents => {
            reveal_strlit("Dojo Ranking Events");
            reveal_strlit("Stories of Legend");
            assert("Dojo Ranking Events"@.len() != "Stories of Legend"@.len());
            reveal_strlit("Event Stages");
            assert("Dojo Ranking Events"@.len() != "Event Stages"@.len());
            reveal_strlit("Collab Stages");
            assert("Dojo Ranking Events"@.len() != "Collab Stages"@.len());
            reveal_strlit("Empire of Cats");
            assert("Dojo Ranking Events"@.len() != "Empire of Cats"@.len());
            reveal_strlit("Into the Future");
            assert("Dojo Ranking Events"@.len() != "Into the Future"@.len());
            reveal_strlit("Cats of the Cosmos");
            assert("Dojo Ranking Events"@.len() != "Cats of the Cosmos"@.len());
            reveal_strlit("Extra Stages");
            assert("Dojo Ranking Events"@.len() != "Extra Stages"@.len());
            reveal_strlit("Dojo Hall of Initiates");
            assert("Dojo Ranking Events"@.len() != "Dojo Hall of Initiates"@.len());
            reveal_strlit("Towers & Citadels");
            assert("Dojo Ranking Events"@.len() != "Towers & Citadels"@.len());
            assert(chapter_named("Dojo Ranking Events"@) == Some(Category::DojoRankingEvents));
        }
        Category::ChallengeBattle => {
            reveal_strlit("Challenge Battle");
            reveal_strlit("Stories of Legend");
            assert("Challenge Battle"@.len() != "Stories of Legend"@.len());
            reveal_strlit("Event Stages");
            assert("Challenge Battle"@.len() != "Event Stages"@.len());
            reveal_strlit("Collab Stages");
            assert("Challenge Battle"@.len() != "Collab Stages"@.len());
            reveal_strlit("Empire of Cats");
            assert("Challenge Battle"@.len() != "Empire of Cats"@.len());
            reveal_strlit("Into the Future");
            assert("Challenge Battle"@.len() != "Into the Future"@.len());
            reveal_strlit("Cats of the Cosmos");
            assert("Challenge Battle"@.len() != "Cats of the Cosmos"@.len());
            reveal_strlit("Extra Stages");
            assert("Challenge Battle"@.len() != "Extra Stages"@.len());
            reveal_strlit("Dojo Hall of Initiates");
            assert("Challenge Battle"@.len() != "Dojo Hall of Initiates"@.len());
            reveal_strlit("Towers & Citadels");
            assert("Challenge Battle"@.len() != "Towers & Citadels"@.len());
            reveal_strlit("Dojo Ranking Events");
            assert("Challenge Battle"@.len() != "Dojo Ranking Events"@.len());
            assert(chapter_named("Challenge Battle"@) == Some(Category::ChallengeBattle));
        }
        Category::UncannyLegends => {
            reveal_strlit("Uncanny Legends");
            reveal_strlit("Stories of Legend");
            assert("Uncanny Legends"@.len() != "Stories of Legend"@.len());
            reveal_strlit("Event Stages");
            assert("Uncanny Legends"@.len() != "Event Stages"@.len());
            reveal_strlit("Collab Stages");
            assert("Uncanny Legends"@.len() != "Collab Stages"@.len());
            reveal_strlit("Empire of Cats");
            assert("Uncanny Legends"@.len() != "Empire of Cats"@.len());
            reveal_strlit("Into the Future");
            assert("Uncanny Legends"@[0] != "Into the Future"@[0]);
            reveal_strlit("Cats of the Cosmos");
            assert("Uncanny Legends"@.len() != "Cats of the Cosmos"@.len());
            reveal_strlit("Extra Stages");
            assert("Uncanny Legends"@.len() != "Extra Stages"@.len());
            reveal_strlit("Dojo Hall of Initiates");
            assert("Uncanny Legends"@.len() != "Dojo Hall of Initiates"@.len());
            reveal_strlit("Towers & Citadels");
            assert("Uncanny Legends"@.len() != "Towers & Citadels"@.len());
            reveal_strlit("Dojo Ranking Events");
            assert("Uncanny Legends"@.len() != "Dojo Ranking Events"@.len());
            reveal_strlit("Challenge Battle");
            assert("Uncanny Legends"@.len() != "Challenge Battle"@.len());
            assert(chapter_named("Uncanny Legends"@) == Some(Category::UncannyLegends));
        }
        Category::CataminStages => {
            reveal_strlit("Catamin Stages");
            reveal_strlit("Stories of Legend");
            assert("Catamin Stages"@.len() != "Stories of Legend"@.len());
            reveal_strlit("Event Stages");
            assert("Catamin Stages"@.len() != "Event Stages"@.len());
            reveal_strlit("Collab Stages");
            assert("Catamin Stages"@.len() != "Collab Stages"@.len());
            reveal_strlit("Empire of Cats");
            assert("Catamin Stages"@[0] != "Empire of Cats"@[0]);
            reveal_strlit("Into the Future");
            assert("Catamin Stages"@.len() != "Into the Future"@.len());
            reveal_strlit("Cats of the Cosmos");
            assert("Catamin Stages"@.len() != "Cats of the Cosmos"@.len());
            reveal_strlit("Extra Stages");
            assert("Catamin Stages"@.len() != "Extra Stages"@.len());
            reveal_strlit("Dojo Hall of Initiates");
            assert("Catamin Stages"@.len() != "Dojo Hall of Initiates"@.len());
            reveal_strlit("Towers & Citadels");
            assert("Catamin Stages"@.len() != "Towers & Citadels"@.len());
            reveal_strlit("Dojo Ranking Events");
            assert("Catamin Stages"@.len() != "Dojo Ranking Events"@.len());
            reveal_strlit("Challenge Battle");
            assert("Catamin Stages"@.len() != "Challenge Battle"@.len());
            reveal_strlit("Uncanny Legends");
            assert("Catamin Stages"@.len() != "Uncanny Legends"@.len());
            assert(chapter_named("Catamin Stages"@) == Some(Category::CataminStages));
        }
        Category::LegendQuest => {
            reveal_strlit("Legend Quest");
            reveal_strlit("Stories of Legend");
            assert("Legend Quest"@.len() != "Stories of Legend"@.len());
            reveal_strlit("Event Stages");
            assert("Legend Quest"@[0] != "Event Stages"@[0]);
            reveal_strlit("Collab Stages");
            assert("Legend Quest"@.len() != "Collab Stages"@.len());
            reveal_strlit("Empire of Cats");
            assert("Legend Quest"@.len() != "Empire of Cats"@.len());
            reveal_strlit("Into the Future");
            assert("Legend Quest"@.len() != "Into the Future"@.len());
            reveal_strlit("Cats of the Cosmos");
            assert("Legend Quest"@.len() != "Cats of the Cosmos"@.len());
            reveal_strlit("Extra Stages");
            assert("Legend Quest"@[0] != "Extra Stages"@[0]);
            reveal_strlit("Dojo Hall of Initiates");
            assert("Legend Quest"@.len() != "Dojo Hall of Initiates"@.len());
            reveal_strlit("Towers & Citadels");
            assert("Legend Quest"@.len() != "Towers & Citadels"@.len());
            reveal_strlit("Dojo Ranking Events");
            assert("Legend Quest"@.len() != "Dojo Ranking Events"@.len());
            reveal_strlit("Challenge Battle");
            assert("Legend Quest"@.len() != "Challenge Battle"@.len());
            reveal_strlit("Uncanny Legends");
            assert("Legend Quest"@.len() != "Uncanny Legends"@.len());
            reveal_strlit("Catamin Stages");
            assert("Legend Quest"@.len() != "Catamin Stages"@.len());
            assert(chapter_named("Legend Quest"@) == Some(Category::LegendQuest));
        }
        Category::ZombieOutbreaks => {
            reveal_strlit("Zombie Outbreaks");
            reveal_strlit("Stories of Legend");
            assert("Zombie Outbreaks"@.len() != "Stories of Legend"@.len());
            reveal_strlit("Event Stages");
            assert("Zombie Outbreaks"@.len() != "Event Stages"@.len());
            reveal_strlit("Collab Stages");
            assert("Zombie Outbreaks"@.len() != "Collab Stages"@.len());
            reveal_strlit("Empire of Cats");
            assert("Zombie Outbreaks"@.len() != "Empire of Cats"@.len());
            reveal_strlit("Into the Future");
            assert("Zombie Outbreaks"@.len() != "Into the Future"@.len());
            reveal_strlit("Cats of the Cosmos");
            assert("Zombie Outbreaks"@.len() != "Cats of the Cosmos"@.len());
            reveal_strlit("Extra Stages");
            assert("Zombie Outbreaks"@.len() != "Extra Stages"@.len());
            reveal_strlit("Dojo Hall of Initiates");
            assert("Zombie Outbreaks"@.len() != "Dojo Hall of Initiates"@.len());
            reveal_strlit("Towers & Citadels");
            assert("Zombie Outbreaks"@.len() != "Towers & Citadels"@.len());
            reveal_strlit("Dojo Ranking Events");
            assert("Zombie Outbreaks"@.len() != "Dojo Ranking Events"@.len());
            reveal_strlit("Challenge Battle");
            assert("Zombie Outbreaks"@[0] != "Challenge Battle"@[0]);
            reveal_strlit("Uncanny Legends");
            assert("Zombie Outbreaks"@.len() != "Uncanny Legends"@.len());
            reveal_strlit("Catamin Stages");
            assert("Zombie Outbreaks"@.len() != "Catamin Stages"@.len());
            reveal_strlit("Legend Quest");
            assert("Zombie Outbreaks"@.len() != "Legend Quest"@.len());
            assert(chapter_named("Zombie Outbreaks"@) == Some(Category::ZombieOutbreaks));
        }
        Category::GauntletStages => {
            reveal_strlit("Gauntlet Stages");
            reveal_strlit("Stories of Legend");
            assert("Gauntlet Stages"@.len() != "Stories of Legend"@.len());
            reveal_strlit("Event Stages");
            assert("Gauntlet Stages"@.len() != "Event Stages"@.len());
            reveal_strlit("Collab Stages");
            assert("Gauntlet Stages"@.len() != "Collab Stages"@.len());
            reveal_strlit("Empire of Cats");
            assert("Gauntlet Stages"@.len() != "Empire of Cats"@.len());
            reveal_strlit("Into the Future");
            assert("Gauntlet Stages"@[0] != "Into the Future"@[0]);
            reveal_strlit("Cats of the Cosmos");
            assert("Gauntlet Stages"@.len() != "Cats of the Cosmos"@.len());
            reveal_strlit("Extra Stages");
            assert("Gauntlet Stages"@.len() != "Extra Stages"@.len());
            reveal_strlit("Dojo Hall of Initiates");
            assert("Gauntlet Stages"@.len() != "Dojo Hall of Initiates"@.len());
            reveal_strlit("Towers & Citadels");
            assert("Gauntlet Stages"@.len() != "Towers & Citadels"@.len());
            reveal_strlit("Dojo Ranking Events");
            assert("Gauntlet Stages"@.len() != "Dojo Ranking Events"@.len());
            reveal_strlit("Challenge Battle");
            assert("Gauntlet Stages"@.len() != "Challenge Battle"@.len());
            reveal_strlit("Uncanny Legends");
            assert("Gauntlet Stages"@[0] != "Uncanny Legends"@[0]);
            reveal_strlit("Catamin Stages");
            assert("Gauntlet Stages"@.len() != "Catamin Stages"@.len());
            reveal_strlit("Legend Quest");
            assert("Gauntlet Stages"@.len() != "Legend Quest"@.len());
            reveal_strlit("Zombie Outbreaks");
            assert("Gauntlet Stages"@.len() != "Zombie Outbreaks"@.len());
            assert(chapter_named("Gauntlet Stages"@) == Some(Category::GauntletStages));
        }
        Category::EnigmaStages => {
            reveal_strlit("Enigma Stages");
            reveal_strlit("Stories of Legend");
            assert("Enigma Stages"@.len() != "Stories of Legend"@.len());
            reveal_strlit("Event Stages");
            assert("Enigma Stages"@.len() != "Event Stages"@.len());
            reveal_strlit("Collab Stages");
            assert("Enigma Stages"@[0] != "Collab Stages"@[0]);
            reveal_strlit("Empire of Cats");
            assert("Enigma Stages"@.len() != "Empire of Cats"@.len());
            reveal_strlit("Into the Future");
            assert("Enigma Stages"@.len() != "Into the Future"@.len());
            reveal_strlit("Cats of the Cosmos");
            assert("Enigma Stages"@.len() != "Cats of the Cosmos"@.len());
            reveal_strlit("Extra Stages");
            assert("Enigma Stages"@.len() != "Extra Stages"@.len());
            reveal_strlit("Dojo Hall of Initiates");
            assert("Enigma Stages"@.len() != "Dojo Hall of Initiates"@.len());
            reveal_strlit("Towers & Citadels");
            assert("Enigma Stages"@.len() != "Towers & Citadels"@.len());
            reveal_strlit("Dojo Ranking Events");
            assert("Enigma Stages"@.len() != "Dojo Ranking Events"@.len());
            reveal_strlit("Challenge Battle");
            assert("Enigma Stages"@.len() != "Challenge Battle"@.len());
            reveal_strlit("Uncanny Legends");
            assert("Enigma Stages"@.len() != "Uncanny Legends"@.len());
            reveal_strlit("Catamin Stages");
            assert("Enigma Stages"@.len() != "Catamin Stages"@.len());
            reveal_strlit("Legend Quest");
            assert("Enigma Stages"@.len() != "Legend Quest"@.len());
            reveal_strlit("Zombie Outbreaks");
            assert("Enigma Stages"@.len() != "Zombie Outbreaks"@.len());
            reveal_strlit("Gauntlet Stages");
            assert("Enigma Stages"@.len() != "Gauntlet Stages"@.len());
            assert(chapter_named("Enigma Stages"@) == Some(Category::EnigmaStages));
        }
        Category::CollabGauntletStages => {
            reveal_strlit("Collab Gauntlet Stages");
            reveal_strlit("Stories of Legend");
            assert("Collab Gauntlet Stages"@.len() != "Stories of Legend"@.len());
            reveal_strlit("Event Stages");
            assert("Collab Gauntlet Stages"@.len() != "Event Stages"@.len());
            reveal_strlit("Collab Stages");
            assert("Collab Gauntlet Stages"@.len() != "Collab Stages"@.len());
            reveal_strlit("Empire of Cats");
            assert("Collab Gauntlet Stages"@.len() != "Empire of Cats"@.len());
            reveal_strlit("Into the Future");
            assert("Collab Gauntlet Stages"@.len() != "Into the Future"@.len());
            reveal_strlit("Cats of the Cosmos");
            assert("Collab Gauntlet Stages"@.len() != "Cats of the Cosmos"@.len());
            reveal_strlit("Extra Stages");
            assert("Collab Gauntlet Stages"@.len() != "Extra Stages"@.len());
            reveal_strlit("Dojo Hall of Initiates");
            assert("Collab Gauntlet Stages"@[0] != "Dojo Hall of Initiates"@[0]);
            reveal_strlit("Towers & Citadels");
            assert("Collab Gauntlet Stages"@.len() != "Towers & Citadels"@.len());
            reveal_strlit("Dojo Ranking Events");
            assert("Collab Gauntlet Stages"@.len() != "Dojo Ranking Events"@.len());
            reveal_strlit("Challenge Battle");
            assert("Collab Gauntlet Stages"@.len() != "Challenge Battle"@.len());
            reveal_strlit("Uncanny Legends");
            assert("Collab Gauntlet Stages"@.len() != "Uncanny Legends"@.len());
            reveal_strlit("Catamin Stages");
            assert("Collab Gauntlet Stages"@.len() != "Catamin Stages"@.len());
            reveal_strlit("Legend Quest");
            assert("Collab Gauntlet Stages"@.len() != "Legend Quest"@.len());
            reveal_strlit("Zombie Outbreaks");
            assert("Collab Gauntlet Stages"@.len() != "Zombie Outbreaks"@.len());
            reveal_strlit("Gauntlet Stages");
            assert("Collab Gauntlet Stages"@.len() != "Gauntlet Stages"@.len());
            reveal_strlit("Enigma Stages");
            assert("Collab Gauntlet Stages"@.len() != "Enigma Stages"@.len());
            assert(chapter_named("Collab Gauntlet Stages"@) == Some(Category::CollabGauntletStages));
        }
        Category::AkuRealms => {
            reveal_strlit("Aku Realms");
            reveal_strlit("Stories of Legend");
            assert("Aku Realms"@.len() != "Stories of Legend"@.len());
            reveal_strlit("Event Stages");
            assert("Aku Realms"@.len() != "Event Stages"@.len());
            reveal_strlit("Collab Stages");
            assert("Aku Realms"@.len() != "Collab Stages"@.len());
            reveal_strlit("Empire of Cats");
            assert("Aku Realms"@.len() != "Empire of Cats"@.len());
            reveal_strlit("Into the Future");
            assert("Aku Realms"@.len() != "Into the Future"@.len());
            reveal_strlit("Cats of the Cosmos");
            assert("Aku Realms"@.len() != "Cats of the Cosmos"@.len());
            reveal_strlit("Extra Stages");
            assert("Aku Realms"@.len() != "Extra Stages"@.len());
            reveal_strlit("Dojo Hall of Initiates");
            assert("Aku Realms"@.len() != "Dojo Hall of Initiates"@.len());
            reveal_strlit("Towers & Citadels");
            assert("Aku Realms"@.len() != "Towers & Citadels"@.len());
            reveal_strlit("Dojo Ranking Events");
            assert("Aku Realms"@.len() != "Dojo Ranking Events"@.len());
            reveal_strlit("Challenge Battle");
            assert("Aku Realms"@.len() != "Challenge Battle"@.len());
            reveal_strlit("Uncanny Legends");
            assert("Aku Realms"@.len() != "Uncanny Legends"@.len());
            reveal_strlit("Catamin Stages");
            assert("Aku Realms"@.len() != "Catamin Stages"@.len());
            reveal_strlit("Legend Quest");
            assert("Aku Realms"@.len() != "Legend Quest"@.len());
            reveal_strlit("Zombie Outbreaks");
            assert("Aku Realms"@.len() != "Zombie Outbreaks"@.len());
            reveal_strlit("Gauntlet Stages");
            assert("Aku Realms"@.len() != "Gauntlet Stages"@.len());
            reveal_strlit("Enigma Stages");
            assert("Aku Realms"@.len() != "Enigma Stages"@.len());
            reveal_strlit("Collab Gauntlet Stages");
            assert("Aku Realms"@.len() != "Collab Gauntlet Stages"@.len());
            assert(chapter_named("Aku Realms"@) == Some(Category::AkuRealms));
        }
        Category::BehemothCulling => {
            reveal_strlit("Behemoth Culling");
            reveal_strlit("Stories of Legend");
            assert("Behemoth Culling"@.len() != "Stories of Legend"@.len());
            reveal_strlit("Event Stages");
            assert("Behemoth Culling"@.len() != "Event Stages"@.len());
            reveal_strlit("Collab Stages");
            assert("Behemoth Culling"@.len() != "Collab Stages"@.len());
            reveal_strlit("Empire of Cats");
            assert("Behemoth Culling"@.len() != "Empire of Cats"@.len());
            reveal_strlit("Into the Future");
            assert("Behemoth Culling"@.len() != "Into the Future"@.len());
            reveal_strlit("Cats of the Cosmos");
            assert("Behemoth Culling"@.len() != "Cats of the Cosmos"@.len());
            reveal_strlit("Extra Stages");
            assert("Behemoth Culling"@.len() != "Extra Stages"@.len());
            reveal_strlit("Dojo Hall of Initiates");
            assert("Behemoth Culling"@.len() != "Dojo Hall of Initiates"@.len());
            reveal_strlit("Towers & Citadels");
            assert("Behemoth Culling"@.len() != "Towers & Citadels"@.len());
            reveal_strlit("Dojo Ranking Events");
            assert("Behemoth Culling"@.len() != "Dojo Ranking Events"@.len());
            reveal_strlit("Challenge Battle");
            assert("Behemoth Culling"@[0] != "Challenge Battle"@[0]);
            reveal_strlit("Uncanny Legends");
            assert("Behemoth Culling"@.len() != "Uncanny Legends"@.len());
            reveal_strlit("Catamin Stages");
            assert("Behemoth Culling"@.len() != "Catamin Stages"@.len());
            reveal_strlit("Legend Quest");
            assert("Behemoth Culling"@.len() != "Legend Quest"@.len());
            reveal_strlit("Zombie Outbreaks");
            assert("Behemoth Culling"@[0] != "Zombie Outbreaks"@[0]);
            reveal_strlit("Gauntlet Stages");
            assert("Behemoth Culling"@.len() != "Gauntlet Stages"@.len());
            reveal_strlit("Enigma Stages");
            assert("Behemoth Culling"@.len() != "Enigma Stages"@.len());
            reveal_strlit("Collab Gauntlet Stages");
            assert("Behemoth Culling"@.len() != "Collab Gauntlet Stages"@.len());
            reveal_strlit("Aku Realms");
            assert("Behemoth Culling"@.len() != "Aku Realms"@.len());
            assert(chapter_named("Behemoth Culling"@) == Some(Category::BehemothCulling));
        }
        Category::Labyrinth => {
            reveal_strlit("Labyrinth");
            reveal_strlit("Stories of Legend");
            assert("Labyrinth"@.len() != "Stories of Legend"@.len());
            reveal_strlit("Event Stages");
            assert("Labyrinth"@.len() != "Event Stages"@.len());
            reveal_strlit("Collab Stages");
            assert("Labyrinth"@.len() != "Collab Stages"@.len());
            reveal_strlit("Empire of Cats");
            assert("Labyrinth"@.len() != "Empire of Cats"@.len());
            reveal_strlit("Into the Future");
            assert("Labyrinth"@.len() != "Into the Future"@.len());
            reveal_strlit("Cats of the Cosmos");
            assert("Labyrinth"@.len() != "Cats of the Cosmos"@.len());
            reveal_strlit("Extra Stages");
            assert("Labyrinth"@.len() != "Extra Stages"@.len());
            reveal_strlit("Dojo Hall of Initiates");
            assert("Labyrinth"@.len() != "Dojo Hall of Initiates"@.len());
            reveal_strlit("Towers & Citadels");
            assert("Labyrinth"@.len() != "Towers & Citadels"@.len());
            reveal_strlit("Dojo Ranking Events");
            assert("Labyrinth"@.len() != "Dojo Ranking Events"@.len());
            reveal_strlit("Challenge Battle");
            assert("Labyrinth"@.len() != "Challenge Battle"@.len());
            reveal_strlit("Uncanny Legends");
            assert("Labyrinth"@.len() != "Uncanny Legends"@.len());
            reveal_strlit("Catamin Stages");
            assert("Labyrinth"@.len() != "Catamin Stages"@.len());
            reveal_strlit("Legend Quest");
            assert("Labyrinth"@.len() != "Legend Quest"@.len());
            reveal_strlit("Zombie Outbreaks");
            assert("Labyrinth"@.len() != "Zombie Outbreaks"@.len());
            reveal_strlit("Gauntlet Stages");
            assert("Labyrinth"@.len() != "Gauntlet Stages"@.len());
            reveal_strlit("Enigma Stages");
            assert("Labyrinth"@.len() != "Enigma Stages"@.len());
            reveal_strlit("Collab Gauntlet Stages");
            assert("Labyrinth"@.len() != "Collab Gauntlet Stages"@.len());
            reveal_strlit("Aku Realms");
            assert("Labyrinth"@.len() != "Aku Realms"@.len());
            reveal_strlit("Behemoth Culling");
            assert("Labyrinth"@.len() != "Behemoth Culling"@.len());
            assert(chapter_named("Labyrinth"@) == Some(Category::Labyrinth));
        }
        Category::ZeroLegends => {
            reveal_strlit("Zero Legends");
            reveal_strlit("Stories of Legend");
            assert("Zero Legends"@.len() != "Stories of Legend"@.len());
            reveal_strlit("Event Stages");
            assert("Zero Legends"@[0] != "Event Stages"@[0]);
            reveal_strlit("Collab Stages");
            assert("Zero Legends"@.len() != "Collab Stages"@.len());
            reveal_strlit("Empire of Cats");
            assert("Zero Legends"@.len() != "Empire of Cats"@.len());
            reveal_strlit("Into the Future");
            assert("Zero Legends"@.len() != "Into the Future"@.len());
            reveal_strlit("Cats of the Cosmos");
            assert("Zero Legends"@.len() != "Cats of the Cosmos"@.len());
            reveal_strlit("Extra Stages");
            assert("Zero Legends"@[0] != "Extra Stages"@[0]);
            reveal_strlit("Dojo Hall of Initiates");
            assert("Zero Legends"@.len() != "Dojo Hall of Initiates"@.len());
            reveal_strlit("Towers & Citadels");
            assert("Zero Legends"@.len() != "Towers & Citadels"@.len());
            reveal_strlit("Dojo Ranking Events");
            assert("Zero Legends"@.len() != "Dojo Ranking Events"@.len());
            reveal_strlit("Challenge Battle");
            assert("Zero Legends"@.len() != "Challenge Battle"@.len());
            reveal_strlit("Uncanny Legends");
            assert("Zero Legends"@.len() != "Uncanny Legends"@.len());
            reveal_strlit("Catamin Stages");
            assert("Zero Legends"@.len() != "Catamin Stages"@.len());
            reveal_strlit("Legend Quest");
            assert("Zero Legends"@[0] != "Legend Quest"@[0]);
            reveal_strlit("Zombie Outbreaks");
            assert("Zero Legends"@.len() != "Zombie Outbreaks"@.len());
            reveal_strlit("Gauntlet Stages");
            assert("Zero Legends"@.len() != "Gauntlet Stages"@.len());
            reveal_strlit("Enigma Stages");
            assert("Zero Legends"@.len() != "Enigma Stages"@.len());
            reveal_strlit("Collab Gauntlet Stages");
            assert("Zero Legends"@.len() != "Collab Gauntlet Stages"@.len());
            reveal_strlit("Aku Realms");
            assert("Zero Legends"@.len() != "Aku Realms"@.len());
            reveal_strlit("Behemoth Culling");
            assert("Zero Legends"@.len() != "Behemoth Culling"@.len());
            reveal_strlit("Labyrinth");
            assert("Zero Legends"@.len() != "Labyrinth"@.len());
            assert(chapter_named("Zero Legends"@) == Some(Category::ZeroLegends));
        }
        Category::OtherworldColosseum => {
            reveal_strlit("Otherworld Colosseum");
            reveal_strlit("Stories of Legend");
            assert("Otherworld Colosseum"@.len() != "Stories of Legend"@.len());
            reveal_strlit("Event Stages");
            assert("Otherworld Colosseum"@.len() != "Event Stages"@.len());
            reveal_strlit("Collab Stages");
            assert("Otherworld Colosseum"@.len() != "Collab Stages"@.len());
            reveal_strlit("Empire of Cats");
            assert("Otherworld Colosseum"@.len() != "Empire of Cats"@.len());
            reveal_strlit("Into the Future");
            assert("Otherworld Colosseum"@.len() != "Into the Future"@.len());
            reveal_strlit("Cats of the Cosmos");
            assert("Otherworld Colosseum"@.len() != "Cats of the Cosmos"@.len());
            reveal_strlit("Extra Stages");
            assert("Otherworld Colosseum"@.len() != "Extra Stages"@.len());
            reveal_strlit("Dojo Hall of Initiates");
            assert("Otherworld Colosseum"@.len() != "Dojo Hall of Initiates"@.len());
            reveal_strlit("Towers & Citadels");
            assert("Otherworld Colosseum"@.len() != "Towers & Citadels"@.len());
            reveal_strlit("Dojo Ranking Events");
            assert("Otherworld Colosseum"@.len() != "Dojo Ranking Events"@.len());
            reveal_strlit("Challenge Battle");
            assert("Otherworld Colosseum"@.len() != "Challenge Battle"@.len());
            reveal_strlit("Uncanny Legends");
            assert("Otherworld Colosseum"@.len() != "Uncanny Legends"@.len());
            reveal_strlit("Catamin Stages");
            assert("Otherworld Colosseum"@.len() != "Catamin Stages"@.len());
            reveal_strlit("Legend Quest");
            assert("Otherworld Colosseum"@.len() != "Legend Quest"@.len());
            reveal_strlit("Zombie Outbreaks");
            assert("Otherworld Colosseum"@.len() != "Zombie Outbreaks"@.len());
            reveal_strlit("Gauntlet Stages");
            assert("Otherworld Colosseum"@.len() != "Gauntlet Stages"@.len());
            reveal_strlit("Enigma Stages");
            assert("Otherworld Colosseum"@.len() != "Enigma Stages"@.len());
            reveal_strlit("Collab Gauntlet Stages");
            assert("Otherworld Colosseum"@.len() != "Collab Gauntlet Stages"@.len());
            reveal_strlit("Aku Realms");
            assert("Otherworld Colosseum"@.len() != "Aku Realms"@.len());
            reveal_strlit("Behemoth Culling");
            assert("Otherworld Colosseum"@.len() != "Behemoth Culling"@.len());
            reveal_strlit("Labyrinth");
            assert("Otherworld Colosseum"@.len() != "Labyrinth"@.len());
            reveal_strlit("Zero Legends");
            assert("Otherworld Colosseum"@.len() != "Zero Legends"@.len());
            assert(chapter_named("Otherworld Colosseum"@) == Some(Category::OtherworldColosseum));
        }
        Category::CatclawChampionships => {
            reveal_strlit("Catclaw Championships");
            reveal_strlit("Stories of Legend");
            assert("Catclaw Championships"@.len() != "Stories of Legend"@.len());
            reveal_strlit("Event Stages");
            assert("Catclaw Championships"@.len() != "Event Stages"@.len());
            reveal_strlit("Collab Stages");
            assert("Catclaw Championships"@.len() != "Collab Stages"@.len());
            reveal_strlit("Empire of Cats");
            assert("Catclaw Championships"@.len() != "Empire of Cats"@.len());
            reveal_strlit("Into the Future");
            assert("Catclaw Championships"@.len() != "Into the Future"@.len());
            reveal_strlit("Cats of the Cosmos");
            assert("Catclaw Championships"@.len() != "Cats of the Cosmos"@.len());
            reveal_strlit("Extra Stages");
            assert("Catclaw Championships"@.len() != "Extra Stages"@.len());
            reveal_strlit("Dojo Hall of Initiates");
            assert("Catclaw Championships"@.len() != "Dojo Hall of Initiates"@.len());
            reveal_strlit("Towers & Citadels");
            assert("Catclaw Championships"@.len() != "Towers & Citadels"@.len());
            reveal_strlit("Dojo Ranking Events");
            assert("Catclaw Championships"@.len() != "Dojo Ranking Events"@.len());
            reveal_strlit("Challenge Battle");
            assert("Catclaw Championships"@.len() != "Challenge Battle"@.len());
            reveal_strlit("Uncanny Legends");
            assert("Catclaw Championships"@.len() != "Uncanny Legends"@.len());
            reveal_strlit("Catamin Stages");
            assert("Catclaw Championships"@.len() != "Catamin Stages"@.len());
            reveal_strlit("Legend Quest");
            assert("Catclaw Championships"@.len() != "Legend Quest"@.len());
            reveal_strlit("Zombie Outbreaks");
            assert("Catclaw Championships"@.len() != "Zombie Outbreaks"@.len());
            reveal_strlit("Gauntlet Stages");
            assert("Catclaw Championships"@.len() != "Gauntlet Stages"@.len());
            reveal_strlit("Enigma Stages");
            assert("Catclaw Championships"@.len() != "Enigma Stages"@.len());
            reveal_strlit("Collab Gauntlet Stages");
            assert("Catclaw Championships"@.len() != "Collab Gauntlet Stages"@.len());
            reveal_strlit("Aku Realms");
            assert("Catclaw Championships"@.len() != "Aku Realms"@.len());
            reveal_strlit("Behemoth Culling");
            assert("Catclaw Championships"@.len() != "Behemoth Culling"@.len());
            reveal_strlit("Labyrinth");
            assert("Catclaw Championships"@.len() != "Labyrinth"@.len());
            reveal_strlit("Zero Legends");
            assert("Catclaw Championships"@.len() != "Zero Legends"@.len());
            reveal_strlit("Otherworld Colosseum");
            assert("Catclaw Championships"@.len() != "Otherworld Colosseum"@.len());
            assert(chapter_named("Catclaw Championships"@) == Some(Category::CatclawChampionships));
        }
        Category::FeverRush => {
            reveal_strlit("Fever Rush");
            reveal_strlit("Stories of Legend");
            assert("Fever Rush"@.len() != "Stories of Legend"@.len());
            reveal_strlit("Event Stages");
            assert("Fever Rush"@.len() != "Event Stages"@.len());
            reveal_strlit("Collab Stages");
            assert("Fever Rush"@.len() != "Collab Stages"@.len());
            reveal_strlit("Empire of Cats");
            assert("Fever Rush"@.len() != "Empire of Cats"@.len());
            reveal_strlit("Into the Future");
            assert("Fever Rush"@.len() != "Into the Future"@.len());
            reveal_strlit("Cats of the Cosmos");
            assert("Fever Rush"@.len() != "Cats of the Cosmos"@.len());
            reveal_strlit("Extra Stages");
            assert("Fever Rush"@.len() != "Extra Stages"@.len());
            reveal_strlit("Dojo Hall of Initiates");
            assert("Fever Rush"@.len() != "Dojo Hall of Initiates"@.len());
            reveal_strlit("Towers & Citadels");
            assert("Fever Rush"@.len() != "Towers & Citadels"@.len());
            reveal_strlit("Dojo Ranking Events");
            assert("Fever Rush"@.len() != "Dojo Ranking Events"@.len());
            reveal_strlit("Challenge Battle");
            assert("Fever Rush"@.len() != "Challenge Battle"@.len());
            reveal_strlit("Uncanny Legends");
            assert("Fever Rush"@.len() != "Uncanny Legends"@.len());
            reveal_strlit("Catamin Stages");
            assert("Fever Rush"@.len() != "Catamin Stages"@.len());
            reveal_strlit("Legend Quest");
            assert("Fever Rush"@.len() != "Legend Quest"@.len());
            reveal_strlit("Zombie Outbreaks");
            assert("Fever Rush"@.len() != "Zombie Outbreaks"@.len());
            reveal_strlit("Gauntlet Stages");
            assert("Fever Rush"@.len() != "Gauntlet Stages"@.len());
            reveal_strlit("Enigma Stages");
            assert("Fever Rush"@.len() != "Enigma Stages"@.len());
            reveal_strlit("Collab Gauntlet Stages");
            assert("Fever Rush"@.len() != "Collab Gauntlet Stages"@.len());
            reveal_strlit("Aku Realms");
            assert("Fever Rush"@[0] != "Aku Realms"@[0]);
            reveal_strlit("Behemoth Culling");
            assert("Fever Rush"@.len() != "Behemoth Culling"@.len());
            reveal_strlit("Labyrinth");
            assert("Fever Rush"@.len() != "Labyrinth"@.len());
            reveal_strlit("Zero Legends");
            assert("Fever Rush"@.len() != "Zero Legends"@.len());
            reveal_strlit("Otherworld Colosseum");
            assert("Fever Rush"@.len() != "Otherworld Colosseum"@.len());
            reveal_strlit("Catclaw Championships");
            assert("Fever Rush"@.len() != "Catclaw Championships"@.len());
            assert(chapter_named("Fever Rush"@) == Some(Category::FeverRush));
        }
        Category::Unknown(_) => {},
    }
}

/// Each known chapter reads its own name (Zero Legends as "Zero Legends", Uncanny
/// Legends as "Uncanny Legends"), and no two known chapters read the same: a known
/// chapter is found again from its name.
pub proof fn law_chapter_names_are_distinct(a: Category, b: Category)
    requires
        !(a is Unknown),
        !(b is Unknown),
    ensures
        chapter_named(spec_display_name(a)) == Some(a),
        spec_display_name(Category::ZeroLegends) == "Zero Legends"@,
        spec_display_name(Category::UncannyLegends) == "Uncanny Legends"@,
        spec_display_name(a) == spec_display_name(b) ==> a == b,
{
    lemma_chapter_found(a);
    lemma_chapter_found(b);
}

/// The name of a chapter; an unknown one shows its prefix, and the legacy Princess
/// Punt prefix its name.
pub open spec fn spec_display_name(c: Category) -> Seq<char> {
    match c {
        Category::StoriesOfLegend => "Stories of Legend"@,
        Category::EventStages => "Event Stages"@,
        Category::CollabStages => "Collab Stages"@,
        Category::EmpireOfCats => "Empire of Cats"@,
        Category::IntoTheFuture => "Into the Future"@,
        Category::CatsOfTheCosmos => "Cats of the Cosmos"@,
        Category::ExtraStages => "Extra Stages"@,
        Category::DojoHallOfInitiates => "Dojo Hall of Initiates"@,
        Category::TowersAndCitadels => "Towers & Citadels"@,
        Category::DojoRankingEvents => "Dojo Ranking Events"@,
        Category::ChallengeBattle => "Challenge Battle"@,
        Category::UncannyLegends => "Uncanny Legends"@,
        Category::CataminStages => "Catamin Stages"@,
        Category::LegendQuest => "Legend Quest"@,
        Category::ZombieOutbreaks => "Zombie Outbreaks"@,
        Category::GauntletStages => "Gauntlet Stages"@,
        Category::EnigmaStages => "Enigma Stages"@,
        Category::CollabGauntletStages => "Collab Gauntlet Stages"@,
        Category::AkuRealms => "Aku Realms"@,
        Category::BehemothCulling => "Behemoth Culling"@,
        Category::Labyrinth => "Labyrinth"@,
        Category::ZeroLegends => "Zero Legends"@,
        Category::OtherworldColosseum => "Otherworld Colosseum"@,
        Category::CatclawChampionships => "Catclaw Championships"@,
        Category::FeverRush => "Fever Rush"@,
        Category::Unknown(prefix) => if prefix@ == "PT"@ { "Legacy Princess Punt"@ } else { prefix@ },
    }
}

/// Where a chapter sorts in the chapter list.
pub open spec fn spec_sort_order(c: Category) -> u32 {
    match c {
        Category::EmpireOfCats => 0,
        Category::IntoTheFuture => 1,
        Category::CatsOfTheCosmos => 2,
        Category::ZombieOutbreaks => 3,
        Category::AkuRealms => 4,
        Category::StoriesOfLegend => 10,
        Category::UncannyLegends => 11,
        Category::ZeroLegends => 12,
        Category::EventStages => 20,
        Category::ExtraStages => 21,
        Category::GauntletStages => 22,
        Category::CataminStages => 24,
        Category::ChallengeBattle => 25,
        Category::FeverRush => 26,
        Category::TowersAndCitadels => 31,
        Category::OtherworldColosseum => 32,
        Category::Labyrinth => 33,
        Category::LegendQuest => 34,
        Category::BehemothCulling => 41,
        Category::EnigmaStages => 42,
        Category::DojoHallOfInitiates => 51,
        Category::DojoRankingEvents => 52,
        Category::CatclawChampionships => 53,
        Category::CollabStages => 61,
        Category::CollabGauntletStages => 62,
        Category::Unknown(prefix) => if prefix@ == "PT"@ { 63 } else { 99 },
    }
}

impl Category {
    /// The name of the chapter.
    pub fn display_name(&self) -> (s: String)
        ensures
            s@ == spec_display_name(*self),
    {
        let mut s = String::new();
        match self {
            Category::StoriesOfLegend => push_str(&mut s, "Stories of Legend"),
            Category::EventStages => push_str(&mut s, "Event Stages"),
            Category::CollabStages => push_str(&mut s, "Collab Stages"),
            Category::EmpireOfCats => push_str(&mut s, "Empire of Cats"),
            Category::IntoTheFuture => push_str(&mut s, "Into the Future"),
            Category::CatsOfTheCosmos => push_str(&mut s, "Cats of the Cosmos"),
            Category::ExtraStages => push_str(&mut s, "Extra Stages"),
            Category::DojoHallOfInitiates => push_str(&mut s, "Dojo Hall of Initiates"),
            Category::TowersAndCitadels => push_str(&mut s, "Towers & Citadels"),
            Category::DojoRankingEvents => push_str(&mut s, "Dojo Ranking Events"),
            Category::ChallengeBattle => push_str(&mut s, "Challenge Battle"),
            Category::UncannyLegends => push_str(&mut s, "Uncanny Legends"),
            Category::CataminStages => push_str(&mut s, "Catamin Stages"),
            Category::LegendQuest => push_str(&mut s, "Legend Quest"),
            Category::ZombieOutbreaks => push_str(&mut s, "Zombie Outbreaks"),
            Category::GauntletStages => push_str(&mut s, "Gauntlet Stages"),
            Category::EnigmaStages => push_str(&mut s, "Enigma Stages"),
            Category::CollabGauntletStages => push_str(&mut s, "Collab Gauntlet Stages"),
            Category::AkuRealms => push_str(&mut s, "Aku Realms"),
            Category::BehemothCulling => push_str(&mut s, "Behemoth Culling"),
            Category::Labyrinth => push_str(&mut s, "Labyrinth"),
            Category::ZeroLegends => push_str(&mut s, "Zero Legends"),
            Category::OtherworldColosseum => push_str(&mut s, "Otherworld Colosseum"),
            Category::CatclawChampionships => push_str(&mut s, "Catclaw Championships"),
            Category::FeverRush => push_str(&mut s, "Fever Rush"),
            Category::Unknown(prefix) => {
                if crate::text::same_text(prefix.as_str(), "PT") {
                    push_str(&mut s, "Legacy Princess Punt");
                } else {
                    push_str(&mut s, prefix.as_str());
                }
            },
        }
        assert(s@ =~= spec_display_name(*self));
        s
    }

    /// Where the chapter sorts in the chapter list.
    pub fn sort_order(&self) -> (n: u32)
        ensures
            n == spec_sort_order(*self),
    {
        match self {
            Category::EmpireOfCats => 0,
            Category::IntoTheFuture => 1,
            Category::CatsOfTheCosmos => 2,
            Category::ZombieOutbreaks => 3,
            Category::AkuRealms => 4,
            Category::StoriesOfLegend => 10,
            Category::UncannyLegends => 11,
            Category::ZeroLegends => 12,
            Category::EventStages => 20,
            Category::ExtraStages => 21,
            Category::GauntletStages => 22,
            Category::CataminStages => 24,
            Category::ChallengeBattle => 25,
            Category::FeverRush => 26,
            Category::TowersAndCitadels => 31,
            Category::OtherworldColosseum => 32,
            Category::Labyrinth => 33,
            Category::LegendQuest => 34,
            Category::BehemothCulling => 41,
            Category::EnigmaStages => 42,
            Category::DojoHallOfInitiates => 51,
            Category::DojoRankingEvents => 52,
            Category::CatclawChampionships => 53,
            Category::CollabStages => 61,
            Category::CollabGauntletStages => 62,
            Category::Unknown(prefix) => if crate::text::same_text(prefix.as_str(), "PT") { 63 } else { 99 },
        }
    }
}

/// The picture of a talent's name: its own name picture when it has one, else the
/// ability's; none for a non-positive id.
pub open spec fn spec_skill_image_id(name_id: i16, ability_id: u8) -> Option<i16> {
    let id: int = if name_id > 0 { name_id as int } else { ability_id as int };
    if id <= 0 { None } else { Some(id as i16) }
}

/// The picture of a talent's name.
pub fn skill_image_id(name_id: i16, ability_id: u8) -> (r: Option<i16>)
    ensures
        r == spec_skill_image_id(name_id, ability_id),
{
    let id: i16 = if name_id > 0 { name_id } else { ability_id as i16 };
    if id <= 0 { None } else { Some(id) }
}

/// A number written with at least three digits, zeros in front.
pub open spec fn pad3(n: nat) -> Seq<char> {
    if n < 10 {
        "00"@ + dec(n)
    } else if n < 100 {
        "0"@ + dec(n)
    } else {
        dec(n)
    }
}

/// The file of a talent name picture: "Skill_name_" and the id in three digits.
pub open spec fn spec_skill_image_name(id: u16) -> Seq<char> {
    "Skill_name_"@ + pad3(id as nat) + ".png"@
}

/// The file of a talent name picture.
pub fn skill_image_name(id: u16) -> (s: String)
    ensures
        s@ == spec_skill_image_name(id),
{
    let mut s = String::new();
    push_str(&mut s, "Skill_name_");
    if id < 10 {
        push_str(&mut s, "00");
    } else if id < 100 {
        push_str(&mut s, "0");
    }
    push_decimal(&mut s, id as u64);
    push_str(&mut s, ".png");
    proof {
        reveal_strlit("Skill_name_");
        reveal_strlit("00");
        reveal_strlit("0");
        reveal_strlit(".png");
        assert(s@ =~= spec_skill_image_name(id));
    }
    s
}

/// The stage list's selection: a chapter, one of its maps, one of its stages.
#[derive(Debug, Clone, PartialEq, Eq)]
pub struct StageSelection {
    pub category: Option<Category>,
    pub map: Option<u32>,
    pub stage: Option<u32>,
}

impl StageSelection {
    /// Nothing selected.
    pub fn new() -> (s: StageSelection)
        ensures
            s.category is None && s.map is None && s.stage is None,
    {
        StageSelection { category: None, map: None, stage: None }
    }

    /// A chapter was chosen: its map and stage are chosen afresh.
    pub fn select_category(&mut self, category: Category)
        ensures
            final(self).category == Some(category),
            final(self).map is None,
            final(self).stage is None,
    {
        self.category = Some(category);
        self.map = None;
        self.stage = None;
    }

    /// A map was chosen: its stage is chosen afresh.
    pub fn select_map(&mut self, map: u32)
        ensures
            final(self).category == old(self).category,
            final(self).map == Some(map),
            final(self).stage is None,
    {
        self.map = Some(map);
        self.stage = None;
    }

    /// A stage was chosen.
    pub fn select_stage(&mut self, stage: u32)
        ensures
            final(self).category == old(self).category,
            final(self).map == old(self).map,
            final(self).stage == Some(stage),
    {
        self.stage = Some(stage);
    }
}

/// The first place at or after `from` where `%d` stands in `t`, or -1.
pub open spec fn marker_from(t: Seq<char>, from: int) -> int
    decreases t.len() - from,
{
    if from < 0 || from + 2 > t.len() {
        -1
    } else if t[from] == '%' && t[from + 1] == 'd' {
        from
    } else {
        marker_from(t, from + 1)
    }
}

/// `t` with its first `%d` replaced by `rep` (`t` itself when it has none).
pub open spec fn replace_first(t: Seq<char>, rep: Seq<char>) -> Seq<char> {
    let i = marker_from(t, 0);
    if i < 0 {
        t
    } else {
        t.subrange(0, i) + rep + t.subrange(i + 2, t.len() as int)
    }
}

/// `t` with its `%d` markers filled, first to last, by the numbers of `params` in order;
/// numbers beyond the markers are dropped, markers beyond the numbers stay.
pub open spec fn spec_fill(t: Seq<char>, params: Seq<i32>) -> Seq<char>
    decreases params.len(),
{
    if params.len() == 0 {
        t
    } else {
        spec_fill(replace_first(t, dec_int(params[0] as int)), params.drop_first())
    }
}

proof fn lemma_marker_step(t: Seq<char>, k: int)
    requires
        0 <= k,
        k + 2 <= t.len(),
        !(t[k] == '%' && t[k + 1] == 'd'),
    ensures
        marker_from(t, k) == marker_from(t, k + 1),
{
}

/// `t` with its first `%d` replaced by the number `n`.
fn replace_marker(t: &str, n: i32) -> (r: String)
    ensures
        r@ == replace_first(t@, dec_int(n as int)),
{
    let v = chars_of(t);
    let len = v.len();
    let mut k: usize = 0;
    while k < len && k + 1 < len && !(v[k] == '%' && v[k + 1] == 'd')
        invariant
            v@ == t@,
            len == v@.len(),
            k <= len,
            marker_from(t@, 0) == marker_from(t@, k as int),
        decreases len - k,
    {
        proof { lemma_marker_step(t@, k as int); }
        k = k + 1;
    }
    if !(k < len && k + 1 < len) {
        let mut r = String::new();
        push_chars(&mut r, &v);
        assert(r@ =~= t@);
        return r;
    }
    assert(marker_from(t@, k as int) == k);
    let mut r = string_of_range(&v, 0, k);
    let number = decimal_signed(n as i64);
    push_str(&mut r, number.as_str());
    let rest = string_of_range(&v, k + 2, len);
    push_str(&mut r, rest.as_str());
    r
}

/// `t` with its `%d` markers filled by `params` (see [`spec_fill`]).
pub fn fill_markers(t: &str, params: &Vec<i32>) -> (r: String)
    ensures
        r@ == spec_fill(t@, params@),
{
    let mut r = String::new();
    push_str(&mut r, t);
    assert(r@ =~= t@);
    assert(params@.skip(0) =~= params@);
    let mut i: usize = 0;
    while i < params.len()
        invariant
            i <= params@.len(),
            spec_fill(t@, params@) == spec_fill(r@, params@.skip(i as int)),
        decreases params.len() - i,
    {
        proof {
            assert(params@.skip(i as int).drop_first() =~= params@.skip(i + 1));
        }
        r = replace_marker(r.as_str(), params[i]);
        i = i + 1;
    }
    proof {
        assert(params@.skip(i as int) =~= Seq::<i32>::empty());
    }
    r
}

/// The numbers of several groups, one after another.
pub open spec fn flattened(groups: Seq<Seq<i32>>) -> Seq<i32>
    decreases groups.len(),
{
    if groups.len() == 0 {
        Seq::empty()
    } else {
        flattened(groups.drop_last()) + groups.last()
    }
}

/// A kind of special stage rule.
#[derive(Debug, Clone, Copy, PartialEq, Eq, Structural)]
pub enum RuleKind {
    TrustFund,
    CooldownEquality,
    RarityLimit,
    CheapLabor,
    CatCost,
    CatProduction,
    TotalDeployLimit,
    MoreThanOne,
    MegaCatCannon,
    UniformMotion,
    CompoundingCost,
    Unknown(i32),
}

/// A special stage rule and its numbers.
#[derive(Debug, Clone)]
pub struct Rule {
    pub kind: RuleKind,
    pub params: Vec<i32>,
}

/// How a rule is named when the game has no text for it.
pub open spec fn spec_rule_name(kind: RuleKind) -> Seq<char> {
    match kind {
        RuleKind::TrustFund => "Trust Fund"@,
        RuleKind::CooldownEquality => "Cooldown Equality"@,
        RuleKind::RarityLimit => "Rarity Limit"@,
        RuleKind::CheapLabor => "Cheap Labor"@,
        RuleKind::CatCost => "Cat Cost"@,
        RuleKind::CatProduction => "Cat Production"@,
        RuleKind::TotalDeployLimit => "Total Deploy Limit"@,
        RuleKind::MoreThanOne => "More Than One"@,
        RuleKind::MegaCatCannon => "Mega Cat Cannon"@,
        RuleKind::UniformMotion => "Uniform Motion"@,
        RuleKind::CompoundingCost => "Compounding Cost"@,
        RuleKind::Unknown(id) => "Unknown Rule "@ + dec_int(id as int),
    }
}

fn push_rule_name(out: &mut String, kind: RuleKind)
    ensures
        final(out)@ == old(out)@ + spec_rule_name(kind),
{
    match kind {
        RuleKind::TrustFund => push_str(out, "Trust Fund"),
        RuleKind::CooldownEquality => push_str(out, "Cooldown Equality"),
        RuleKind::RarityLimit => push_str(out, "Rarity Limit"),
        RuleKind::CheapLabor => push_str(out, "Cheap Labor"),
        RuleKind::CatCost => push_str(out, "Cat Cost"),
        RuleKind::CatProduction => push_str(out, "Cat Production"),
        RuleKind::TotalDeployLimit => push_str(out, "Total Deploy Limit"),
        RuleKind::MoreThanOne => push_str(out, "More Than One"),
        RuleKind::MegaCatCannon => push_str(out, "Mega Cat Cannon"),
        RuleKind::UniformMotion => push_str(out, "Uniform Motion"),
        RuleKind::CompoundingCost => push_str(out, "Compounding Cost"),
        RuleKind::Unknown(id) => {
            push_str(out, "Unknown Rule ");
            let number = decimal_signed(id as i64);
            push_str(out, number.as_str());
            assert(final(out)@ =~= old(out)@ + spec_rule_name(kind));
        },
    }
}

/// Numbers as a list is written for debugging: in square brackets, separated by commas.
pub open spec fn spec_number_list(ns: Seq<i32>) -> Seq<char> {
    "["@ + joined(ns) + "]"@
}

/// Numbers separated by a comma and a space.
pub open spec fn joined(ns: Seq<i32>) -> Seq<char>
    decreases ns.len(),
{
    if ns.len() == 0 {
        Seq::empty()
    } else if ns.len() == 1 {
        dec_int(ns[0] as int)
    } else {
        joined(ns.drop_last()) + ", "@ + dec_int(ns.last() as int)
    }
}

fn push_number_list(out: &mut String, ns: &Vec<i32>)
    ensures
        final(out)@ == old(out)@ + spec_number_list(ns@),
{
    push_str(out, "[");
    let ghost start = out@;
    let mut i: usize = 0;
    while i < ns.len()
        invariant
            i <= ns@.len(),
            out@ == start + joined(ns@.take(i as int)),
        decreases ns.len() - i,
    {
        if i > 0 {
            push_str(out, ", ");
        }
        let number = decimal_signed(ns[i] as i64);
        push_str(out, number.as_str());
        proof {
            assert(ns@.take(i + 1).drop_last() =~= ns@.take(i as int));
            if i == 0 {
                assert(joined(ns@.take(0)) =~= Seq::<char>::empty());
            }
            assert(out@ =~= start + joined(ns@.take(i + 1)));
        }
        i = i + 1;
    }
    push_str(out, "]");
    assert(ns@.take(ns@.len() as int) =~= ns@);
    assert(final(out)@ =~= old(out)@ + spec_number_list(ns@));
}

/// The rules written out one per line, each as its name and its numbers.
pub open spec fn rule_lines(rules: Seq<Rule>) -> Seq<char>
    decreases rules.len(),
{
    if rules.len() == 0 {
        Seq::empty()
    } else {
        rule_lines(rules.drop_last()) + spec_rule_name(rules.last().kind) + " "@ + spec_number_list(rules.last().params@) + "\n"@
    }
}

/// The numbers of the rules, one rule after another.
pub open spec fn rule_params(rules: Seq<Rule>) -> Seq<i32>
    decreases rules.len(),
{
    if rules.len() == 0 {
        Seq::empty()
    } else {
        rule_params(rules.drop_last()) + rules.last().params@
    }
}

/// The key of the text that explains a special rule: its explanation label, or for a
/// rule named by a label ending in "Name" (white space trimmed) that label's stem with
/// "Explanation"; none otherwise.
pub open spec fn spec_explanation_key(explanation: Seq<char>, name: Seq<char>) -> Seq<char> {
    let trimmed = spec_trim(name);
    if explanation.len() > 0 {
        explanation
    } else if trimmed.len() >= 4 && trimmed.subrange(trimmed.len() - 4, trimmed.len() as int) == "Name"@ {
        trimmed.subrange(0, trimmed.len() - 4) + "Explanation"@
    } else {
        Seq::empty()
    }
}

/// The key of the text that explains a special rule (see [`spec_explanation_key`]).
pub fn explanation_key(explanation: &str, name: &str) -> (k: String)
    ensures
        k@ == spec_explanation_key(explanation@, name@),
{
    let mut k = String::new();
    if explanation.unicode_len() > 0 {
        push_str(&mut k, explanation);
        return k;
    }
    let trimmed = trim(name);
    let v = chars_of(trimmed.as_str());
    let n = v.len();
    if n >= 4 && v[n - 4] == 'N' && v[n - 3] == 'a' && v[n - 2] == 'm' && v[n - 1] == 'e' {
        proof {
            reveal_strlit("Name");
            assert(v@.subrange(n - 4, n as int) =~= "Name"@);
        }
        let stem = string_of_range(&v, 0, n - 4);
        push_str(&mut k, stem.as_str());
        push_str(&mut k, "Explanation");
    } else {
        proof {
            reveal_strlit("Name");
            if n >= 4 && v@.subrange(n - 4, n as int) == "Name"@ {
                assert(v@.subrange(n - 4, n as int)[0] == 'N');
                assert(v@.subrange(n - 4, n as int)[1] == 'a');
                assert(v@.subrange(n - 4, n as int)[2] == 'm');
                assert(v@.subrange(n - 4, n as int)[3] == 'e');
            }
        }
    }
    k
}

/// What a special rule reads: the game's explanation (`described`, stripped of markup)
/// with the rules' numbers filled in; without one, each rule's name and numbers, one
/// per line.
pub open spec fn spec_special_rule(described: Seq<char>, rules: Seq<Rule>) -> Seq<char> {
    if described.len() == 0 {
        spec_trim(rule_lines(rules))
    } else {
        spec_fill(described, rule_params(rules))
    }
}

/// What a special rule reads (see [`spec_special_rule`]).
pub fn format_special_rule(described: &str, rules: &Vec<Rule>) -> (s: String)
    ensures
        s@ == spec_special_rule(described@, rules@),
{
    if described.unicode_len() == 0 {
        let mut lines = String::new();
        let mut i: usize = 0;
        while i < rules.len()
            invariant
                i <= rules@.len(),
                lines@ == rule_lines(rules@.take(i as int)),
            decreases rules.len() - i,
        {
            push_rule_name(&mut lines, rules[i].kind);
            push_str(&mut lines, " ");
            push_number_list(&mut lines, &rules[i].params);
            push_str(&mut lines, "\n");
            proof {
                assert(rules@.take(i + 1).drop_last() =~= rules@.take(i as int));
                assert(lines@ =~= rule_lines(rules@.take(i + 1)));
            }
            i = i + 1;
        }
        assert(rules@.take(rules@.len() as int) =~= rules@);
        return trim(lines.as_str());
    }
    let mut params: Vec<i32> = Vec::new();
    let mut i: usize = 0;
    while i < rules.len()
        invariant
            i <= rules@.len(),
            params@ == rule_params(rules@.take(i as int)),
        decreases rules.len() - i,
    {
        let mut j: usize = 0;
        let ghost before = params@;
        while j < rules[i].params.len()
            invariant
                i < rules@.len(),
                j <= rules@[i as int].params@.len(),
                params@ == before + rules@[i as int].params@.take(j as int),
            decreases rules[i as int].params@.len() - j,
        {
            params.push(rules[i].params[j]);
            j = j + 1;
            assert(params@ =~= before + rules@[i as int].params@.take(j as int));
        }
        proof {
            assert(rules@.take(i + 1).drop_last() =~= rules@.take(i as int));
            assert(rules@[i as int].params@.take(j as int) =~= rules@[i as int].params@);
        }
        i = i + 1;
    }
    assert(rules@.take(rules@.len() as int) =~= rules@);
    fill_markers(described, &params)
}

/// The key of the text that explains a score bonus: its explanation label, else its name.
pub open spec fn spec_bonus_key(explanation: Seq<char>, name: Seq<char>) -> Seq<char> {
    if explanation.len() > 0 { explanation } else { name }
}

/// The key of the text that explains a score bonus.
pub fn bonus_key(explanation: &str, name: &str) -> (k: String)
    ensures
        k@ == spec_bonus_key(explanation@, name@),
{
    let mut k = String::new();
    if explanation.unicode_len() > 0 {
        push_str(&mut k, explanation);
    } else {
        push_str(&mut k, name);
    }
    k
}

/// What a score bonus reads: the game's text (`described`, stripped of markup) with the
/// bonuses' numbers filled in, or a note that the text is missing, naming its key.
pub open spec fn spec_score_bonus(described: Seq<char>, key: Seq<char>, bonuses: Seq<Seq<i32>>) -> Seq<char> {
    if described.len() == 0 {
        "\u{3010}"@ + key + "\u{3011} Localization data missing."@
    } else {
        spec_fill(described, flattened(bonuses))
    }
}

/// What a score bonus reads (see [`spec_score_bonus`]); `bonuses` holds each bonus's
/// numbers.
pub fn format_score_bonus(described: &str, key: &str, bonuses: &Vec<Vec<i32>>) -> (s: String)
    ensures
        s@ == spec_score_bonus(described@, key@, bonuses@.map_values(|b: Vec<i32>| b@)),
{
    let ghost groups = bonuses@.map_values(|b: Vec<i32>| b@);
    if described.unicode_len() == 0 {
        let mut s = String::new();
        push_str(&mut s, "\u{3010}");
        push_str(&mut s, key);
        push_str(&mut s, "\u{3011} Localization data missing.");
        return s;
    }
    let mut params: Vec<i32> = Vec::new();
    let mut i: usize = 0;
    while i < bonuses.len()
        invariant
            i <= bonuses@.len(),
            groups == bonuses@.map_values(|b: Vec<i32>| b@),
            params@ == flattened(groups.take(i as int)),
        decreases bonuses.len() - i,
    {
        let mut j: usize = 0;
        let ghost before = params@;
        while j < bonuses[i].len()
            invariant
                i < bonuses@.len(),
                j <= bonuses@[i as int]@.len(),
                params@ == before + bonuses@[i as int]@.take(j as int),
            decreases bonuses@[i as int]@.len() - j,
        {
            params.push(bonuses[i][j]);
            j = j + 1;
            assert(params@ =~= before + bonuses@[i as int]@.take(j as int));
        }
        proof {
            assert(groups.take(i + 1).drop_last() =~= groups.take(i as int));
            assert(bonuses@[i as int]@.take(j as int) =~= bonuses@[i as int]@);
        }
        i = i + 1;
    }
    assert(groups.take(bonuses@.len() as int) =~= groups);
    fill_markers(described, &params)
}

/// The crown's magnification in percent; a stage without one keeps enemies at 100%.
pub open spec fn crown_percent(crown_mag: Option<u32>) -> int {
    match crown_mag {
        Some(c) => c as int,
        None => 100,
    }
}

/// Whether an enemy's HP and attack magnifications differ once scaled by the crown.
pub open spec fn split_at(mag: (u32, u32), crown: int) -> bool {
    (mag.0 * crown) / 100 != (mag.1 * crown) / 100
}

/// The layout of a stage's enemy table: whether a score column is shown (some enemy
/// scores), whether the base column counts damage as in the dojo (some enemy's base HP
/// is above 100%), and whether magnifications show HP and attack apart (some enemy's
/// two magnifications differ once scaled by the crown, 100% when the stage has none).
pub fn enemy_table_layout(scores: &Vec<u32>, base_hp: &Vec<u32>, mags: &Vec<(u32, u32)>, crown_mag: Option<u32>) -> (r: (bool, bool, bool))
    ensures
        r.0 == exists|i: int| 0 <= i < scores@.len() && #[trigger] scores@[i] > 0,
        r.1 == exists|i: int| 0 <= i < base_hp@.len() && #[trigger] base_hp@[i] > 100,
        r.2 == exists|i: int| 0 <= i < mags@.len() && split_at(#[trigger] mags@[i], crown_percent(crown_mag)),
{
    let crown: u64 = match crown_mag {
        Some(c) => c as u64,
        None => 100,
    };
    let mut score = false;
    let mut i: usize = 0;
    while i < scores.len()
        invariant
            i <= scores@.len(),
            score == exists|j: int| 0 <= j < i && #[trigger] scores@[j] > 0,
        decreases scores.len() - i,
    {
        if scores[i] > 0 {
            score = true;
        }
        i = i + 1;
    }
    let mut dojo = false;
    let mut i: usize = 0;
    while i < base_hp.len()
        invariant
            i <= base_hp@.len(),
            dojo == exists|j: int| 0 <= j < i && #[trigger] base_hp@[j] > 100,
        decreases base_hp.len() - i,
    {
        if base_hp[i] > 100 {
            dojo = true;
        }
        i = i + 1;
    }
    let mut split = false;
    let mut i: usize = 0;
    while i < mags.len()
        invariant
            i <= mags@.len(),
            crown == crown_percent(crown_mag),
            split == exists|j: int| 0 <= j < i && split_at(#[trigger] mags@[j], crown_percent(crown_mag)),
        decreases mags.len() - i,
    {
        let (hp, atk) = mags[i];
        assert(hp as u64 * crown <= u32::MAX as u64 * u32::MAX as u64) by (nonlinear_arith)
            requires hp <= u32::MAX, crown <= u32::MAX;
        assert(atk as u64 * crown <= u32::MAX as u64 * u32::MAX as u64) by (nonlinear_arith)
            requires atk <= u32::MAX, crown <= u32::MAX;
        if (hp as u64 * crown) / 100 != (atk as u64 * crown) / 100 {
            split = true;
        }
        i = i + 1;
    }
    (score, dojo, split)
}

/// The headers of the magnification and base columns: HP and attack apart when they are
/// split, and damage counts in place of base percentages in the dojo.
pub fn table_headers(split: bool, dojo: bool) -> (r: (&'static str, &'static str))
    ensures
        r.0@ == if split { "Magnification %\n(HP% / ATK%)"@ } else { "Magnification %"@ },
        r.1@ == if dojo { "Dmg #"@ } else { "Base %"@ },
{
    let mag = if split { "Magnification %\n(HP% / ATK%)" } else { "Magnification %" };
    let base = if dojo { "Dmg #" } else { "Base %" };
    (mag, base)
}

} // verus!
