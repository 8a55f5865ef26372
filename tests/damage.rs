use hodlwarz_combat::{
    compute_hit_damage, effect_bps_at, effective_max_health, lookup_bps, register_player, Effect,
    PlayerState,
};

fn fresh() -> PlayerState {
    register_player([7u8; 32])
}

#[test]
fn plain_hit_deals_attack_power() {
    let a = fresh();
    let v = fresh();
    assert_eq!(compute_hit_damage(&a, &v), 10);
}

#[test]
fn heavy_hitter_rank_one_truncates() {
    let mut a = fresh();
    a.talents[5] = 1;
    let v = fresh();
    // 10 * 10400 / 10000 = 10.4, rounded down
    assert_eq!(compute_hit_damage(&a, &v), 10);
}

#[test]
fn heavy_hitter_crit_and_armor_stack() {
    let mut a = fresh();
    a.attack_power = 100;
    a.talents[5] = 5;
    a.talents[7] = 5;
    let mut v = fresh();
    assert_eq!(compute_hit_damage(&a, &v), 210);
    v.talents[0] = 5;
    assert_eq!(compute_hit_damage(&a, &v), 159);
}

#[test]
fn damage_is_capped_before_crit() {
    let mut a = fresh();
    a.attack_power = 1000;
    let v = fresh();
    assert_eq!(compute_hit_damage(&a, &v), 500);
    a.talents[7] = 5;
    assert_eq!(compute_hit_damage(&a, &v), 850);
}

#[test]
fn execute_applies_at_half_health() {
    let mut a = fresh();
    a.attack_power = 1000;
    a.talents[7] = 5;
    a.talents[21] = 5;
    let mut v = fresh();
    v.health = 51;
    assert_eq!(compute_hit_damage(&a, &v), 850);
    v.health = 50;
    assert_eq!(compute_hit_damage(&a, &v), 1258);
}

#[test]
fn hit_always_deals_at_least_one() {
    let mut a = fresh();
    a.attack_power = 0;
    let v = fresh();
    assert_eq!(compute_hit_damage(&a, &v), 1);
}

#[test]
fn berserker_below_a_third() {
    let mut a = fresh();
    a.talents[24] = 1;
    a.health = 34;
    let v = fresh();
    assert_eq!(compute_hit_damage(&a, &v), 10);
    a.health = 33;
    assert_eq!(compute_hit_damage(&a, &v), 12);
}

#[test]
fn vitality_strike_adds_share_of_max_health() {
    let mut a = fresh();
    a.talents[4] = 3;
    a.max_health = 10000;
    a.health = 10000;
    let v = fresh();
    assert_eq!(compute_hit_damage(&a, &v), 70);
}

#[test]
fn iron_skin_raises_effective_max_health() {
    let mut p = fresh();
    assert_eq!(effective_max_health(&p), 100);
    p.talents[1] = 1;
    assert_eq!(effective_max_health(&p), 110);
    p.talents[1] = 5;
    p.max_health = u16::MAX;
    assert_eq!(effective_max_health(&p), 85195);
}

#[test]
fn largest_hit_stays_within_bound() {
    let mut a = fresh();
    a.attack_power = u16::MAX;
    a.max_health = u16::MAX;
    a.health = 1;
    for slot in [1usize, 4, 5, 7, 21, 24] {
        a.talents[slot] = 5;
    }
    a.talents[4] = 3;
    a.talents[24] = 3;
    let mut v = fresh();
    v.health = 0;
    assert_eq!(compute_hit_damage(&a, &v), 1258);
}

#[test]
fn table_lookup_edges() {
    let table = [5u32, 6, 7];
    assert_eq!(lookup_bps(0, &table), 0);
    assert_eq!(lookup_bps(1, &table), 5);
    assert_eq!(lookup_bps(3, &table), 7);
    assert_eq!(lookup_bps(4, &table), 0);
    assert_eq!(effect_bps_at(Effect::CriticalStrike, 2), 1680);
    assert_eq!(effect_bps_at(Effect::VitalityStrike, 3), 60);
    assert_eq!(effect_bps_at(Effect::VitalityStrike, 4), 0);
    assert_eq!(effect_bps_at(Effect::Experience, 5), 4000);
}
