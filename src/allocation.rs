use vstd::prelude::*;
use crate::error::CombatError;
use crate::progression::{calc_level, calc_talent_points, level_of, talent_points_of};
use crate::state::{
    PlayerState,
    active_capstones,
    held,
    no_talents,
    points_spent,
    rank,
    rank_sum,
    talents_valid,
    vitals_consistent,
};
use crate::talents::{
    MAX_CAPSTONES,
    is_capstone,
    max_rank_for_talent,
    prerequisite,
    rank_cap,
    talent_prerequisite,
};

verus! {

/// Talent points that `p`'s experience grants.
pub open spec fn points_available(p: PlayerState) -> int {
    talent_points_of(level_of(p.xp as int))
}

/// Why taking one more rank of `talent_id` is refused, checked in this order; `None` if
/// it goes ahead.
pub open spec fn allocation_check(p: PlayerState, talent_id: u8) -> Option<CombatError> {
    let id = talent_id as int;
    if !p.initialized {
        Some(CombatError::NotInitialized)
    } else if id > 24 {
        Some(CombatError::InvalidTalentId)
    } else if points_spent(p) >= points_available(p) {
        Some(CombatError::NoTalentPoints)
    } else if rank(p, id) >= rank_cap(id) {
        Some(CombatError::TalentMaxed)
    } else if prerequisite(id) is Some && rank(p, prerequisite(id)->0) < 1 {
        Some(CombatError::PrerequisiteNotMet)
    } else if is_capstone(id) && rank(p, id) == 0 && active_capstones(p) >= MAX_CAPSTONES {
        Some(CombatError::MaxCapstones)
    } else {
        None
    }
}

proof fn lemma_rank_sum_update(s: Seq<u8>, i: int, v: u8)
    requires
        0 <= i < s.len(),
    ensures
        rank_sum(s.update(i, v)) == rank_sum(s) - s[i] + v,
    decreases s.len(),
{
    if i == s.len() - 1 {
        assert(s.update(i, v).drop_last() == s.drop_last());
    } else {
        lemma_rank_sum_update(s.drop_last(), i, v);
        assert(s.update(i, v).drop_last() == s.drop_last().update(i, v));
    }
}

/// Number of capstones in which `player` holds a rank.
fn capstones_taken(player: &PlayerState) -> (r: usize)
    ensures
        r == active_capstones(*player),
{
    let capstones: [u8; 5] = [4, 9, 14, 17, 24];
    let mut chosen: usize = 0;
    let mut i: usize = 0;
    while i < 5
        invariant
            0 <= i <= 5,
            capstones@ == seq![4u8, 9, 14, 17, 24],
            chosen == (if i > 0 { held(*player, 4) } else { 0 }) + (if i > 1 {
                held(*player, 9)
            } else {
                0
            }) + (if i > 2 { held(*player, 14) } else { 0 }) + (if i > 3 {
                held(*player, 17)
            } else {
                0
            }) + (if i > 4 { held(*player, 24) } else { 0 }),
        decreases 5 - i,
    {
        if player.get_talent(capstones[i]) > 0 {
            chosen += 1;
        }
        i += 1;
    }
    chosen
}

/// Takes one more rank of `talent_id` for `player`, if its points, the slot's cap, the
/// slot's prerequisite and the two-capstone limit allow. A granted rank costs exactly one
/// point, lowers no rank, and keeps every rank within its cap and at most two capstones
/// held.
pub fn allocate_talent(player: &mut PlayerState, talent_id: u8) -> (r: Result<(), CombatError>)
    ensures
        match allocation_check(*old(player), talent_id) {
            Some(e) => r == Err::<(), CombatError>(e) && *final(player) == *old(player),
            None => {
                &&& r is Ok
                &&& *final(player) == (PlayerState {
                    talents: final(player).talents,
                    manual_build: true,
                    ..*old(player)
                })
                &&& final(player).talents@ == old(player).talents@.update(
                    talent_id as int,
                    (old(player).talents@[talent_id as int] + 1) as u8,
                )
            },
        },
        old(player).initialized && talent_id < 25 && points_spent(*old(player)) >= points_available(
            *old(player),
        ) ==> r == Err::<(), CombatError>(CombatError::NoTalentPoints),
        r is Ok ==> points_spent(*final(player)) == points_spent(*old(player)) + 1,
        r is Ok ==> points_spent(*final(player)) <= points_available(*final(player)),
        r is Ok ==> forall|slot: int|
            0 <= slot < 25 ==> #[trigger] rank(*final(player), slot) >= rank(*old(player), slot),
        is_capstone(talent_id as int) && rank(*old(player), talent_id as int) == 0
            && active_capstones(*old(player)) >= 2 ==> r is Err,
        active_capstones(*old(player)) <= 2 ==> active_capstones(*final(player)) <= 2,
        talents_valid(*old(player)) ==> talents_valid(*final(player)),
        vitals_consistent(*old(player)) ==> vitals_consistent(*final(player)),
{
    if !player.initialized {
        return Err(CombatError::NotInitialized);
    }
    if talent_id > 24 {
        return Err(CombatError::InvalidTalentId);
    }
    let level = calc_level(player.xp);
    let total_points = calc_talent_points(level);
    let spent = player.total_talent_points_spent();
    if spent >= total_points {
        return Err(CombatError::NoTalentPoints);
    }
    let current = player.get_talent(talent_id);
    if current >= max_rank_for_talent(talent_id) {
        return Err(CombatError::TalentMaxed);
    }
    if let Some(prereq_id) = talent_prerequisite(talent_id) {
        if player.get_talent(prereq_id) < 1 {
            return Err(CombatError::PrerequisiteNotMet);
        }
    }
    let is_cap = talent_id == 4 || talent_id == 9 || talent_id == 14 || talent_id == 17
        || talent_id == 24;
    if is_cap && current == 0 {
        let chosen = capstones_taken(player);
        if chosen >= MAX_CAPSTONES {
            return Err(CombatError::MaxCapstones);
        }
    }
    proof {
        lemma_rank_sum_update(player.talents@, talent_id as int, (current + 1) as u8);
    }
    let ghost before = *player;
    player.set_talent(talent_id, current + 1);
    player.manual_build = true;
    assert(talents_valid(before) ==> talents_valid(*player)) by {
        if talents_valid(before) {
            assert forall|slot: int| 0 <= slot < 25 implies #[trigger] rank(*player, slot)
                <= rank_cap(slot) by {
                assert(rank(before, slot) <= rank_cap(slot));
            }
        }
    }
    Ok(())
}

/// Clears every rank of an initialized record and marks its build as customised.
pub fn reset_talents(player: &mut PlayerState) -> (r: Result<(), CombatError>)
    ensures
        !old(player).initialized ==> r == Err::<(), CombatError>(CombatError::NotInitialized)
            && *final(player) == *old(player),
        old(player).initialized ==> {
            &&& r is Ok
            &&& *final(player) == (PlayerState {
                talents: final(player).talents,
                manual_build: true,
                ..*old(player)
            })
            &&& no_talents(*final(player))
        },
        vitals_consistent(*old(player)) ==> vitals_consistent(*final(player)),
{
    if !player.initialized {
        return Err(CombatError::NotInitialized);
    }
    player.talents = [0u8; 25];
    player.manual_build = true;
    assert(player.talents@ =~= Seq::new(25, |i: int| 0u8));
    Ok(())
}

} // verus!
