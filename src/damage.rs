use vstd::prelude::*;
use crate::state::{PlayerState, effective_max, effective_max_health, rank, talent_bps};
use crate::talents::{Effect, effect_bps_at};

verus! {

/// Hard cap on a hit's damage before critical strikes and execute are applied.
pub const DAMAGE_CAP: u32 = 500;

/// Largest damage a single hit can deal: the cap raised by the top critical-strike
/// and execute bonuses.
pub const MAX_HIT_DAMAGE: u32 = 1258;

/// `d` raised by `bps` basis points, rounded down.
pub open spec fn boosted(d: int, bps: int) -> int {
    d * (10000 + bps) / 10000
}

/// `d` lowered by `bps` basis points, rounded down; the reduction stays below 100%.
pub open spec fn reduced(d: int, bps: int) -> int {
    d * (10000 - (if bps > 9999 { 9999 } else { bps })) / 10000
}

/// The attacker is at a third of its effective max health or below.
pub open spec fn berserk_applies(a: PlayerState) -> bool {
    rank(a, 24) > 0 && a.health <= effective_max(a) * 3300 / 10000
}

/// The victim is at half its effective max health or below.
pub open spec fn execute_applies(a: PlayerState, v: PlayerState) -> bool {
    rank(a, 21) > 0 && v.health * 2 <= effective_max(v)
}

/// Attack power after heavy hitter.
pub open spec fn after_heavy_hitter(a: PlayerState) -> int {
    if talent_bps(a, Effect::HeavyHitter) > 0 {
        boosted(a.attack_power as int, talent_bps(a, Effect::HeavyHitter))
    } else {
        a.attack_power as int
    }
}

/// Damage after berserker, when it applies.
pub open spec fn after_berserker(a: PlayerState) -> int {
    if berserk_applies(a) {
        boosted(after_heavy_hitter(a), talent_bps(a, Effect::Berserker))
    } else {
        after_heavy_hitter(a)
    }
}

/// Damage after the flat vitality-strike bonus.
pub open spec fn after_vitality(a: PlayerState) -> int {
    if rank(a, 4) > 0 {
        after_berserker(a) + effective_max(a) * talent_bps(a, Effect::VitalityStrike) / 10000
    } else {
        after_berserker(a)
    }
}

/// The attacker's own damage, clamped to the cap.
pub open spec fn capped_damage(a: PlayerState) -> int {
    if after_vitality(a) > DAMAGE_CAP {
        DAMAGE_CAP as int
    } else {
        after_vitality(a)
    }
}

/// Damage after the expected critical-strike bonus.
pub open spec fn after_crit(a: PlayerState) -> int {
    if rank(a, 7) > 0 {
        boosted(capped_damage(a), talent_bps(a, Effect::CriticalStrike))
    } else {
        capped_damage(a)
    }
}

/// Damage after execute, when the victim is low enough.
pub open spec fn after_execute(a: PlayerState, v: PlayerState) -> int {
    if execute_applies(a, v) {
        boosted(after_crit(a), talent_bps(a, Effect::Execute))
    } else {
        after_crit(a)
    }
}

/// Damage after the victim's armor.
pub open spec fn after_armor(a: PlayerState, v: PlayerState) -> int {
    if rank(v, 0) > 0 {
        reduced(after_execute(a, v), talent_bps(v, Effect::Armor))
    } else {
        after_execute(a, v)
    }
}

/// Damage of one hit of `a` on `v`: at least 1.
pub open spec fn hit_damage(a: PlayerState, v: PlayerState) -> int {
    if after_armor(a, v) < 1 {
        1
    } else {
        after_armor(a, v)
    }
}

proof fn lemma_boosted_bound(d: int, bps: int, dmax: int, bmax: int)
    requires
        0 <= d <= dmax,
        0 <= bps <= bmax,
    ensures
        0 <= d * (10000 + bps) <= dmax * (10000 + bmax),
        d <= boosted(d, bps) <= boosted(dmax, bmax),
{
    assert(0 <= d * (10000 + bps) <= dmax * (10000 + bmax)) by (nonlinear_arith)
        requires
            0 <= d <= dmax,
            0 <= bps <= bmax,
    ;
    assert(d * 10000 <= d * (10000 + bps)) by (nonlinear_arith)
        requires
            0 <= d,
            0 <= bps,
    ;
}

proof fn lemma_reduced_bound(d: int, bps: int)
    requires
        0 <= d,
        0 <= bps,
    ensures
        0 <= d * (10000 - (if bps > 9999 { 9999 } else { bps })) <= d * 10000,
        0 <= reduced(d, bps) <= d,
{
    let keep = 10000 - (if bps > 9999 { 9999 } else { bps });
    assert(0 <= d * keep <= d * 10000) by (nonlinear_arith)
        requires
            0 <= d,
            1 <= keep <= 10000,
    ;
}

/// Every hit deals at least 1 damage and at most `MAX_HIT_DAMAGE`; without critical
/// strike and execute, the only stages that come after the cap and raise damage, it
/// deals at most `DAMAGE_CAP`.
pub proof fn lemma_hit_damage_bounds(a: PlayerState, v: PlayerState)
    ensures
        1 <= hit_damage(a, v) <= MAX_HIT_DAMAGE,
        0 <= capped_damage(a) <= DAMAGE_CAP,
        rank(a, 7) == 0 && !execute_applies(a, v) ==> hit_damage(a, v) <= DAMAGE_CAP,
{
    lemma_stage_bounds(a, v);
}

proof fn lemma_stage_bounds(a: PlayerState, v: PlayerState)
    ensures
        0 <= after_heavy_hitter(a) <= 81263,
        0 <= after_berserker(a) <= 125957,
        0 <= capped_damage(a) <= 500,
        capped_damage(a) <= after_crit(a) <= 850,
        after_crit(a) <= after_execute(a, v) <= 1258,
        0 <= after_armor(a, v) <= after_execute(a, v),
        0 <= effective_max(a) <= 85195,
{
    effect_bound(a, Effect::HeavyHitter);
    effect_bound(a, Effect::Berserker);
    effect_bound(a, Effect::CriticalStrike);
    effect_bound(a, Effect::Execute);
    effect_bound(a, Effect::IronSkin);
    effect_bound(a, Effect::VitalityStrike);
    effect_bound(v, Effect::Armor);
    lemma_boosted_bound(a.max_health as int, talent_bps(a, Effect::IronSkin), 65535, 3000);
    lemma_boosted_bound(a.attack_power as int, talent_bps(a, Effect::HeavyHitter), 65535, 2400);
    lemma_boosted_bound(after_heavy_hitter(a), talent_bps(a, Effect::Berserker), 81263, 5500);
    assert(effective_max(a) * talent_bps(a, Effect::VitalityStrike) >= 0) by (nonlinear_arith)
        requires
            effective_max(a) >= 0,
            talent_bps(a, Effect::VitalityStrike) >= 0,
    ;
    lemma_boosted_bound(capped_damage(a), talent_bps(a, Effect::CriticalStrike), 500, 7000);
    lemma_boosted_bound(after_crit(a), talent_bps(a, Effect::Execute), 850, 4800);
    lemma_reduced_bound(after_execute(a, v), talent_bps(v, Effect::Armor));
}

proof fn effect_bound(p: PlayerState, e: Effect)
    ensures
        0 <= talent_bps(p, e) <= crate::talents::effect_max(e),
{
}

/// The attacker's own damage, before the cap: attack power raised by heavy hitter, by
/// berserker at low health, and by vitality strike.
fn uncapped_damage(attacker: &PlayerState) -> (r: u32)
    ensures
        r == after_vitality(*attacker),
{
    proof {
        lemma_stage_bounds(*attacker, *attacker);
    }
    let mut dmg: u32 = attacker.attack_power as u32;

    let hh = effect_bps_at(Effect::HeavyHitter, attacker.talents[5]);
    if hh > 0 {
        proof {
            lemma_boosted_bound(dmg as int, hh as int, 65535, 2400);
        }
        dmg = dmg * (10000 + hh) / 10000;
    }
    assert(dmg == after_heavy_hitter(*attacker));

    if attacker.talents[24] > 0 {
        let eff_max = effective_max_health(attacker);
        let threshold = eff_max * 3300 / 10000;
        if (attacker.health as u32) <= threshold {
            let bonus = effect_bps_at(Effect::Berserker, attacker.talents[24]);
            proof {
                lemma_boosted_bound(dmg as int, bonus as int, 81263, 5500);
            }
            dmg = dmg * (10000 + bonus) / 10000;
        }
    }
    assert(dmg == after_berserker(*attacker));

    if attacker.talents[4] > 0 {
        let eff_max = effective_max_health(attacker);
        let vs = effect_bps_at(Effect::VitalityStrike, attacker.talents[4]);
        assert(eff_max * vs <= 85195 * 60) by (nonlinear_arith)
            requires
                eff_max <= 85195,
                vs <= 60,
        ;
        dmg += eff_max * vs / 10000;
    }
    dmg
}

/// Damage of one hit of `attacker` on `victim`, from their stats and talents alone.
pub fn compute_hit_damage(attacker: &PlayerState, victim: &PlayerState) -> (r: u16)
    ensures
        r == hit_damage(*attacker, *victim),
        1 <= r <= MAX_HIT_DAMAGE,
{
    proof {
        lemma_stage_bounds(*attacker, *victim);
    }
    let mut dmg = uncapped_damage(attacker);
    if dmg > DAMAGE_CAP {
        dmg = DAMAGE_CAP;
    }
    assert(dmg == capped_damage(*attacker));

    if attacker.talents[7] > 0 {
        let crit_ev = effect_bps_at(Effect::CriticalStrike, attacker.talents[7]);
        proof {
            lemma_boosted_bound(dmg as int, crit_ev as int, 500, 7000);
        }
        dmg = dmg * (10000 + crit_ev) / 10000;
    }
    assert(dmg == after_crit(*attacker));

    if attacker.talents[21] > 0 {
        let victim_eff_max = effective_max_health(victim);
        if (victim.health as u32) * 2 <= victim_eff_max {
            let exec = effect_bps_at(Effect::Execute, attacker.talents[21]);
            proof {
                lemma_boosted_bound(dmg as int, exec as int, 850, 4800);
            }
            dmg = dmg * (10000 + exec) / 10000;
        }
    }
    assert(dmg == after_execute(*attacker, *victim));

    if victim.talents[0] > 0 {
        let armor = effect_bps_at(Effect::Armor, victim.talents[0]);
        let kept: u32 = if armor > 9999 { 1 } else { 10000 - armor };
        proof {
            lemma_reduced_bound(dmg as int, armor as int);
        }
        dmg = dmg * kept / 10000;
    }
    assert(dmg == after_armor(*attacker, *victim));

    if dmg < 1 {
        dmg = 1;
    }
    dmg as u16
}

} // verus!
