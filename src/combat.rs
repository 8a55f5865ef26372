use vstd::prelude::*;
use crate::damage::{compute_hit_damage, hit_damage};
use crate::error::CombatError;
use crate::progression::{MAX_LEVEL, calc_level, level_of};
use crate::state::{
    Arena,
    BASE_ATTACK,
    BASE_HEALTH,
    PlayerState,
    at_defaults,
    effective_max,
    effective_max_health,
    talent_bps,
    vitals_consistent,
};
use crate::talents::{Effect, effect_bps_at};

verus! {

/// Seconds a slain player waits before respawning.
pub const RESPAWN_DELAY_SECS: i64 = 5;

/// Most hits one attack may report.
pub const MAX_HITS: u16 = 500;

/// Experience for any kill.
pub const XP_PER_KILL_BASE: u64 = 10;

/// Extra kill experience per victim level above 1.
pub const XP_PER_KILL_PER_LEVEL: u64 = 3;

/// Experience a player receives for dying.
pub const XP_PER_DEATH: u64 = 5;

/// Victim level from which a kill pays double.
pub const BOUNTY_LEVEL: u64 = 50;

/// Why an attack is refused, checked in this order; `None` if it goes ahead.
pub open spec fn attack_check(a: PlayerState, v: PlayerState, arena: Arena, hit_count: u16) -> Option<
    CombatError,
> {
    if !a.initialized || !v.initialized {
        Some(CombatError::NotInitialized)
    } else if !a.is_alive {
        Some(CombatError::AttackerDead)
    } else if !v.is_alive {
        Some(CombatError::VictimDead)
    } else if !arena.is_active {
        Some(CombatError::ArenaInactive)
    } else if hit_count == 0 || hit_count > MAX_HITS {
        Some(CombatError::InvalidHitCount)
    } else {
        None
    }
}

/// Damage of a volley of `hit_count` hits, saturated at `u16::MAX`.
pub open spec fn volley_damage(a: PlayerState, v: PlayerState, hit_count: u16) -> int {
    let total = hit_damage(a, v) * hit_count;
    if total > u16::MAX {
        u16::MAX as int
    } else {
        total
    }
}

/// Experience that `a` earns for killing a victim of `victim_level`: 10 plus 3 per level
/// above 1, doubled from level 50, then raised by the experience talent.
pub open spec fn kill_reward(a: PlayerState, victim_level: int) -> int {
    let above = if victim_level > 1 { victim_level - 1 } else { 0 };
    let base = XP_PER_KILL_BASE + XP_PER_KILL_PER_LEVEL * above;
    let bounty = if victim_level >= BOUNTY_LEVEL { 2 * base } else { base };
    let bonus = talent_bps(a, Effect::Experience);
    if bonus > 0 {
        bounty * (10000 + bonus) / 10000
    } else {
        bounty
    }
}

/// When a player slain at `now` may respawn.
pub open spec fn respawn_time(now: i64) -> i64 {
    if now > i64::MAX - RESPAWN_DELAY_SECS {
        i64::MAX
    } else {
        (now + RESPAWN_DELAY_SECS) as i64
    }
}

/// `v` after being slain at `now`.
pub open spec fn slain(v: PlayerState, now: i64) -> PlayerState {
    PlayerState {
        health: 0,
        is_alive: false,
        deaths: v.deaths.saturating_add(1),
        xp: v.xp.saturating_add(XP_PER_DEATH),
        respawn_at: respawn_time(now),
        ..v
    }
}

/// `a` after killing `v`: one more kill, the reward added, and both tiers set to the
/// level of the new experience.
pub open spec fn rewarded(a: PlayerState, v: PlayerState) -> PlayerState {
    let xp = a.xp.saturating_add(kill_reward(a, level_of(v.xp as int)) as u64);
    PlayerState {
        xp,
        kills: a.kills.saturating_add(1),
        health_level: level_of(xp as int) as u8,
        attack_level: level_of(xp as int) as u8,
        ..a
    }
}

/// `arena` after one more kill.
pub open spec fn arena_after_kill(arena: Arena) -> Arena {
    Arena { total_kills: arena.total_kills.saturating_add(1), ..arena }
}

/// Resolves a volley of `hit_count` hits of `attacker` on `victim` at time `now`. The
/// volley deals `hit_count` times the damage of one hit, saturated at `u16::MAX`. If that
/// reaches the victim's health, the victim dies and the attacker is rewarded; otherwise
/// the victim's health drops by the damage.
pub fn process_attack(
    attacker: &mut PlayerState,
    victim: &mut PlayerState,
    arena: &mut Arena,
    hit_count: u16,
    now: i64,
) -> (r: Result<(), CombatError>)
    ensures
        match attack_check(*old(attacker), *old(victim), *old(arena), hit_count) {
            Some(e) => {
                &&& r == Err::<(), CombatError>(e)
                &&& *final(attacker) == *old(attacker)
                &&& *final(victim) == *old(victim)
                &&& *final(arena) == *old(arena)
            },
            None => {
                &&& r is Ok
                &&& if volley_damage(*old(attacker), *old(victim), hit_count) >= old(victim).health {
                    &&& *final(victim) == slain(*old(victim), now)
                    &&& *final(attacker) == rewarded(*old(attacker), *old(victim))
                    &&& *final(arena) == arena_after_kill(*old(arena))
                } else {
                    &&& *final(victim) == (PlayerState {
                        health: (old(victim).health - volley_damage(
                            *old(attacker),
                            *old(victim),
                            hit_count,
                        )) as u16,
                        ..*old(victim)
                    })
                    &&& *final(attacker) == *old(attacker)
                    &&& *final(arena) == *old(arena)
                }
            },
        },
        final(arena).total_kills >= old(arena).total_kills,
        final(attacker).xp >= old(attacker).xp,
        final(victim).xp >= old(victim).xp,
        vitals_consistent(*old(attacker)) ==> vitals_consistent(*final(attacker)),
        vitals_consistent(*old(victim)) ==> vitals_consistent(*final(victim)),
{
    if !attacker.initialized || !victim.initialized {
        return Err(CombatError::NotInitialized);
    }
    if !attacker.is_alive {
        return Err(CombatError::AttackerDead);
    }
    if !victim.is_alive {
        return Err(CombatError::VictimDead);
    }
    if !arena.is_active {
        return Err(CombatError::ArenaInactive);
    }
    if hit_count == 0 || hit_count > MAX_HITS {
        return Err(CombatError::InvalidHitCount);
    }

    let damage_per_hit = compute_hit_damage(attacker, victim);
    assert((damage_per_hit as u32) * (hit_count as u32) <= 1258 * 500) by (nonlinear_arith)
        requires
            damage_per_hit <= 1258,
            hit_count <= 500,
    ;
    let product = (damage_per_hit as u32) * (hit_count as u32);
    let total_damage: u16 = if product > u16::MAX as u32 {
        u16::MAX
    } else {
        product as u16
    };

    if victim.health <= total_damage {
        let victim_level = calc_level(victim.xp) as u64;
        victim.health = 0;
        victim.is_alive = false;
        victim.deaths = victim.deaths.saturating_add(1);
        victim.xp = victim.xp.saturating_add(XP_PER_DEATH);
        victim.respawn_at = if now > i64::MAX - RESPAWN_DELAY_SECS {
            i64::MAX
        } else {
            now + RESPAWN_DELAY_SECS
        };

        attacker.kills = attacker.kills.saturating_add(1);

        let mut kill_xp = XP_PER_KILL_BASE + victim_level.saturating_sub(1) * XP_PER_KILL_PER_LEVEL;
        if victim_level >= BOUNTY_LEVEL {
            kill_xp = kill_xp * 2;
        }
        let exp_bonus = effect_bps_at(Effect::Experience, attacker.talents[20]);
        if exp_bonus > 0 {
            assert(kill_xp * (10000 + exp_bonus as u64) <= 614 * 14000) by (nonlinear_arith)
                requires
                    kill_xp <= 614,
                    exp_bonus <= 4000,
            ;
            kill_xp = kill_xp * (10000 + exp_bonus as u64) / 10000;
        }
        attacker.xp = attacker.xp.saturating_add(kill_xp);
        arena.total_kills = arena.total_kills.saturating_add(1);

        let new_level = calc_level(attacker.xp);
        attacker.health_level = new_level;
        attacker.attack_level = new_level;
    } else {
        victim.health = victim.health - total_damage;
    }
    Ok(())
}

/// Why a respawn is refused, checked in this order; `None` if it goes ahead.
pub open spec fn respawn_check(p: PlayerState, now: i64) -> Option<CombatError> {
    if !p.initialized {
        Some(CombatError::NotInitialized)
    } else if p.is_alive {
        Some(CombatError::AlreadyAlive)
    } else if now < p.respawn_at {
        Some(CombatError::RespawnCooldown)
    } else {
        None
    }
}

/// `p` brought back: health and max health both set to its effective max health
/// (saturated at `u16::MAX`), alive, cooldown cleared.
pub open spec fn respawned(p: PlayerState) -> PlayerState {
    let h = if effective_max(p) > u16::MAX { u16::MAX } else { effective_max(p) as u16 };
    PlayerState { health: h, max_health: h, is_alive: true, respawn_at: 0, ..p }
}

/// Brings a slain player back once its cooldown has passed at `now`.
pub fn respawn_player(player: &mut PlayerState, now: i64) -> (r: Result<(), CombatError>)
    ensures
        match respawn_check(*old(player), now) {
            Some(e) => r == Err::<(), CombatError>(e) && *final(player) == *old(player),
            None => r is Ok && *final(player) == respawned(*old(player)),
        },
        vitals_consistent(*old(player)) && old(player).max_health > 0 ==> vitals_consistent(
            *final(player),
        ),
{
    if !player.initialized {
        return Err(CombatError::NotInitialized);
    }
    if player.is_alive {
        return Err(CombatError::AlreadyAlive);
    }
    if now < player.respawn_at {
        return Err(CombatError::RespawnCooldown);
    }
    let eff_max = effective_max_health(player);
    let eff_max: u16 = if eff_max > u16::MAX as u32 {
        u16::MAX
    } else {
        eff_max as u16
    };
    player.health = eff_max;
    player.max_health = eff_max;
    player.is_alive = true;
    player.respawn_at = 0;
    Ok(())
}

/// Experience that raising a tier from `tier` costs.
pub open spec fn upgrade_cost(tier: int) -> int {
    100 + tier * 50
}

/// The tier that `stat_type` names: 0 for health, 1 for attack.
pub open spec fn tier_of(p: PlayerState, stat_type: u8) -> int {
    if stat_type == 0 {
        p.health_level as int
    } else {
        p.attack_level as int
    }
}

/// Why a tier upgrade is refused, checked in this order; `None` if it goes ahead.
pub open spec fn upgrade_check(p: PlayerState, stat_type: u8) -> Option<CombatError> {
    if !p.initialized {
        Some(CombatError::NotInitialized)
    } else if stat_type > 1 {
        Some(CombatError::InvalidStatType)
    } else if tier_of(p, stat_type) >= MAX_LEVEL {
        Some(CombatError::MaxLevel)
    } else if p.xp < upgrade_cost(tier_of(p, stat_type)) {
        Some(CombatError::InsufficientXP)
    } else {
        None
    }
}

/// `p` after buying one tier of `stat_type`: the cost deducted, the tier raised, and
/// +10 max health (and +10 health if alive) or +5 attack power, saturating.
pub open spec fn upgraded(p: PlayerState, stat_type: u8) -> PlayerState {
    let xp = (p.xp - upgrade_cost(tier_of(p, stat_type))) as u64;
    if stat_type == 0 {
        PlayerState {
            xp,
            health_level: (p.health_level + 1) as u8,
            max_health: p.max_health.saturating_add(10),
            health: if p.is_alive { p.health.saturating_add(10) } else { p.health },
            ..p
        }
    } else {
        PlayerState {
            xp,
            attack_level: (p.attack_level + 1) as u8,
            attack_power: p.attack_power.saturating_add(5),
            ..p
        }
    }
}

/// Buys one tier of health (`stat_type` 0) or attack (`stat_type` 1) with experience.
pub fn upgrade_stat(player: &mut PlayerState, stat_type: u8) -> (r: Result<(), CombatError>)
    ensures
        match upgrade_check(*old(player), stat_type) {
            Some(e) => r == Err::<(), CombatError>(e) && *final(player) == *old(player),
            None => r is Ok && *final(player) == upgraded(*old(player), stat_type),
        },
        vitals_consistent(*old(player)) ==> vitals_consistent(*final(player)),
{
    if !player.initialized {
        return Err(CombatError::NotInitialized);
    }
    let current_level = match stat_type {
        0 => player.health_level,
        1 => player.attack_level,
        _ => return Err(CombatError::InvalidStatType),
    };
    if current_level >= MAX_LEVEL {
        return Err(CombatError::MaxLevel);
    }
    let cost = 100u64 + (current_level as u64) * 50;
    if player.xp < cost {
        return Err(CombatError::InsufficientXP);
    }
    player.xp = player.xp - cost;
    if stat_type == 0 {
        player.health_level = player.health_level + 1;
        player.max_health = player.max_health.saturating_add(10);
        if player.is_alive {
            player.health = player.health.saturating_add(10);
        }
    } else {
        player.attack_level = player.attack_level + 1;
        player.attack_power = player.attack_power.saturating_add(5);
    }
    Ok(())
}

/// Puts an initialized record back to registration defaults, keeping its identity.
pub fn reset_player(player: &mut PlayerState) -> (r: Result<(), CombatError>)
    ensures
        !old(player).initialized ==> r == Err::<(), CombatError>(CombatError::NotInitialized)
            && *final(player) == *old(player),
        old(player).initialized ==> {
            &&& r is Ok
            &&& final(player).wallet == old(player).wallet
            &&& final(player).initialized
            &&& at_defaults(*final(player))
        },
        vitals_consistent(*old(player)) ==> vitals_consistent(*final(player)),
{
    if !player.initialized {
        return Err(CombatError::NotInitialized);
    }
    player.health = BASE_HEALTH;
    player.max_health = BASE_HEALTH;
    player.attack_power = BASE_ATTACK;
    player.xp = 0;
    player.kills = 0;
    player.deaths = 0;
    player.health_level = 1;
    player.attack_level = 1;
    player.is_alive = true;
    player.respawn_at = 0;
    player.talents = [0u8; 25];
    player.manual_build = false;
    assert(player.talents@ =~= Seq::new(25, |i: int| 0u8));
    Ok(())
}

} // verus!
