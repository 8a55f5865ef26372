use vstd::prelude::*;
use crate::talents::{Effect, effect_bps, effect_bps_at, effect_slot, rank_cap};

verus! {

/// Health of a freshly registered player.
pub const BASE_HEALTH: u16 = 100;

/// Attack power of a freshly registered player.
pub const BASE_ATTACK: u16 = 10;

/// The shared arena: who set it up, and how many kills it has seen.
#[derive(Clone, Copy, Debug, PartialEq, Eq)]
pub struct Arena {
    pub authority: [u8; 32],
    pub player_count: u32,
    pub total_kills: u64,
    pub is_active: bool,
}

/// One participant's record. `talents[slot]` is the rank held in each of the 25 slots.
#[derive(Clone, Copy, Debug, PartialEq, Eq)]
pub struct PlayerState {
    pub wallet: [u8; 32],
    pub health: u16,
    pub max_health: u16,
    pub attack_power: u16,
    pub xp: u64,
    pub kills: u64,
    pub deaths: u64,
    pub health_level: u8,
    pub attack_level: u8,
    pub is_alive: bool,
    pub respawn_at: i64,
    pub initialized: bool,
    pub talents: [u8; 25],
    pub manual_build: bool,
}

/// Rank held in `slot`.
pub open spec fn rank(p: PlayerState, slot: int) -> int {
    p.talents@[slot] as int
}

/// Magnitude of `e` for `p`'s rank in its slot.
pub open spec fn talent_bps(p: PlayerState, e: Effect) -> int {
    effect_bps(e, rank(p, effect_slot(e)))
}

/// Sum of the ranks in `ranks`.
pub open spec fn rank_sum(ranks: Seq<u8>) -> int
    decreases ranks.len(),
{
    if ranks.len() == 0 {
        0
    } else {
        rank_sum(ranks.drop_last()) + ranks.last() as int
    }
}

/// Talent points that `p` has spent.
pub open spec fn points_spent(p: PlayerState) -> int {
    rank_sum(p.talents@)
}

/// 1 if `p` holds a rank in `slot`, else 0.
pub open spec fn held(p: PlayerState, slot: int) -> int {
    if rank(p, slot) > 0 {
        1
    } else {
        0
    }
}

/// Number of capstones in which `p` holds a rank.
pub open spec fn active_capstones(p: PlayerState) -> int {
    held(p, 4) + held(p, 9) + held(p, 14) + held(p, 17) + held(p, 24)
}

/// Every rank is within its slot's cap, and at most two capstones are held.
pub open spec fn talents_valid(p: PlayerState) -> bool {
    &&& forall|slot: int| 0 <= slot < 25 ==> #[trigger] rank(p, slot) <= rank_cap(slot)
    &&& active_capstones(p) <= 2
}

/// Health never exceeds max health, and a player is dead exactly when its health is 0.
pub open spec fn vitals_consistent(p: PlayerState) -> bool {
    &&& p.health <= p.max_health
    &&& (p.health == 0 <==> !p.is_alive)
}

/// Max health once the iron-skin talent is applied.
pub open spec fn effective_max(p: PlayerState) -> int {
    p.max_health * (10000 + talent_bps(p, Effect::IronSkin)) / 10000
}

/// No rank in any slot.
pub open spec fn no_talents(p: PlayerState) -> bool {
    p.talents@ == Seq::new(25, |i: int| 0u8)
}

/// `p` holds the registration defaults: base stats, level-1 tiers, alive, no talents,
/// no customised build.
pub open spec fn at_defaults(p: PlayerState) -> bool {
    &&& p.health == BASE_HEALTH
    &&& p.max_health == BASE_HEALTH
    &&& p.attack_power == BASE_ATTACK
    &&& p.xp == 0
    &&& p.kills == 0
    &&& p.deaths == 0
    &&& p.health_level == 1
    &&& p.attack_level == 1
    &&& p.is_alive
    &&& p.respawn_at == 0
    &&& no_talents(p)
    &&& !p.manual_build
}

/// An active arena set up by `authority`, with no players and no kills.
pub fn init_arena(authority: [u8; 32]) -> (r: Arena)
    ensures
        r == (Arena { authority, player_count: 0, total_kills: 0, is_active: true }),
{
    Arena { authority, player_count: 0, total_kills: 0, is_active: true }
}

/// A new record for `wallet` at registration defaults.
pub fn register_player(wallet: [u8; 32]) -> (r: PlayerState)
    ensures
        r.wallet == wallet,
        r.initialized,
        at_defaults(r),
        vitals_consistent(r),
{
    let r = PlayerState {
        wallet,
        health: BASE_HEALTH,
        max_health: BASE_HEALTH,
        attack_power: BASE_ATTACK,
        xp: 0,
        kills: 0,
        deaths: 0,
        health_level: 1,
        attack_level: 1,
        is_alive: true,
        respawn_at: 0,
        initialized: true,
        talents: [0u8; 25],
        manual_build: false,
    };
    assert(r.talents@ =~= Seq::new(25, |i: int| 0u8));
    r
}

/// Max health of `player` once the iron-skin talent is applied.
pub fn effective_max_health(player: &PlayerState) -> (r: u32)
    ensures
        r == effective_max(*player),
        player.max_health <= r <= 65535 * 13000 / 10000,
{
    let base = player.max_health as u32;
    let iron_skin_bonus = effect_bps_at(Effect::IronSkin, player.talents[1]);
    assert(base * 10000 <= base * (10000 + iron_skin_bonus) <= 65535 * 13000) by (nonlinear_arith)
        requires
            base <= 65535,
            iron_skin_bonus <= 3000,
    ;
    base * (10000 + iron_skin_bonus) / 10000
}

impl PlayerState {
    /// Rank held in slot `id`; 0 for an id outside the table.
    pub fn get_talent(&self, id: u8) -> (r: u8)
        ensures
            r == (if id < 25 { self.talents@[id as int] } else { 0u8 }),
    {
        if id < 25 {
            self.talents[id as usize]
        } else {
            0
        }
    }

    /// Sets the rank of slot `id` to `val`; an id outside the table changes nothing.
    pub fn set_talent(&mut self, id: u8, val: u8)
        ensures
            *final(self) == (PlayerState { talents: final(self).talents, ..*old(self) }),
            id < 25 ==> final(self).talents@ == old(self).talents@.update(id as int, val),
            id >= 25 ==> final(self).talents == old(self).talents,
    {
        if id < 25 {
            self.talents[id as usize] = val;
        }
    }

    /// Talent points spent: the sum of all 25 ranks.
    pub fn total_talent_points_spent(&self) -> (r: u16)
        ensures
            r == points_spent(*self),
    {
        let mut total: u16 = 0;
        let mut i: usize = 0;
        while i < 25
            invariant
                0 <= i <= 25,
                total == rank_sum(self.talents@.subrange(0, i as int)),
                total <= 255 * i,
            decreases 25 - i,
        {
            assert(self.talents@.subrange(0, i + 1).drop_last() == self.talents@.subrange(
                0,
                i as int,
            ));
            total += self.talents[i] as u16;
            i += 1;
        }
        assert(self.talents@.subrange(0, 25) == self.talents@);
        total
    }
}

} // verus!
