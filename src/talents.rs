use vstd::prelude::*;

verus! {

/// Number of talent slots: five trees of five slots each.
pub const TALENT_COUNT: usize = 25;

/// Rank cap of an ordinary talent.
pub const MAX_TALENT_RANK_TIER1_4: u8 = 5;

/// Rank cap of a capstone talent.
pub const MAX_TALENT_RANK_CAPSTONE: u8 = 3;

/// How many capstones a player may hold at once.
pub const MAX_CAPSTONES: usize = 2;

/// The terminal slot of each tree.
pub open spec fn is_capstone(slot: int) -> bool {
    slot == 4 || slot == 9 || slot == 14 || slot == 17 || slot == 24
}

/// The highest rank a slot can hold; 0 for a slot outside the table.
pub open spec fn rank_cap(slot: int) -> int {
    if slot < 0 || slot > 24 {
        0
    } else if is_capstone(slot) {
        MAX_TALENT_RANK_CAPSTONE as int
    } else {
        MAX_TALENT_RANK_TIER1_4 as int
    }
}

/// The slot that must hold a rank before `slot` can be taken. Four trees chain in
/// order; the area-damage tree chains 15 → 16 → 19 → 18 → 17.
pub open spec fn prerequisite(slot: int) -> Option<int> {
    if slot == 16 {
        Some(15)
    } else if slot == 19 {
        Some(16)
    } else if slot == 18 {
        Some(19)
    } else if slot == 17 {
        Some(18)
    } else if (0 <= slot < 15 && slot % 5 != 0) || 20 < slot <= 24 {
        Some(slot - 1)
    } else {
        None
    }
}

/// The rank cap of `talent_id`: 3 for a capstone, 5 for another slot, 0 outside the table.
pub fn max_rank_for_talent(talent_id: u8) -> (r: u8)
    ensures
        r == rank_cap(talent_id as int),
{
    match talent_id {
        4 | 9 | 14 | 17 | 24 => MAX_TALENT_RANK_CAPSTONE,
        0..=24 => MAX_TALENT_RANK_TIER1_4,
        _ => 0,
    }
}

/// The slot that `talent_id` requires, if any.
pub fn talent_prerequisite(talent_id: u8) -> (r: Option<u8>)
    ensures
        r matches Some(p) ==> prerequisite(talent_id as int) == Some(p as int),
        r is None ==> prerequisite(talent_id as int) is None,
{
    match talent_id {
        1 => Some(0),
        2 => Some(1),
        3 => Some(2),
        4 => Some(3),
        6 => Some(5),
        7 => Some(6),
        8 => Some(7),
        9 => Some(8),
        11 => Some(10),
        12 => Some(11),
        13 => Some(12),
        14 => Some(13),
        16 => Some(15),
        19 => Some(16),
        18 => Some(19),
        17 => Some(18),
        21 => Some(20),
        22 => Some(21),
        23 => Some(22),
        24 => Some(23),
        _ => None,
    }
}

/// A talent that the damage engine or the kill reward reads, in basis points.
#[derive(Clone, Copy, Debug, PartialEq, Eq, Structural)]
pub enum Effect {
    /// Reduction of incoming damage.
    Armor,
    /// Increase of max health.
    IronSkin,
    /// Flat bonus damage, a fraction of the attacker's effective max health.
    VitalityStrike,
    /// Increase of outgoing damage.
    HeavyHitter,
    /// Expected value of critical strikes: chance × (multiplier − 1).
    CriticalStrike,
    /// Increase of experience gained from a kill.
    Experience,
    /// Increase of damage against a target at half health or less.
    Execute,
    /// Increase of damage while at a third of effective max health or less.
    Berserker,
}

/// The slot that holds the rank of `e`.
pub open spec fn effect_slot(e: Effect) -> int {
    match e {
        Effect::Armor => 0,
        Effect::IronSkin => 1,
        Effect::VitalityStrike => 4,
        Effect::HeavyHitter => 5,
        Effect::CriticalStrike => 7,
        Effect::Experience => 20,
        Effect::Execute => 21,
        Effect::Berserker => 24,
    }
}

/// Magnitude of `e` in basis points at ranks 1, 2, ....
pub open spec fn effect_table(e: Effect) -> Seq<u32> {
    match e {
        Effect::Armor => seq![400, 800, 1200, 1600, 2400],
        Effect::IronSkin => seq![1000, 1500, 2000, 2500, 3000],
        Effect::VitalityStrike => seq![25, 40, 60],
        Effect::HeavyHitter => seq![400, 800, 1200, 1600, 2400],
        Effect::CriticalStrike => seq![700, 1680, 3360, 5040, 7000],
        Effect::Experience => seq![1000, 1700, 2400, 3200, 4000],
        Effect::Execute => seq![800, 1600, 2400, 3200, 4800],
        Effect::Berserker => seq![2500, 4000, 5500],
    }
}

/// The largest magnitude of `e`, reached at its top rank.
pub open spec fn effect_max(e: Effect) -> int {
    effect_table(e).last() as int
}

/// Magnitude at `rank` in `table`: nothing at rank 0 or beyond the table.
pub open spec fn bps_for(rank: int, table: Seq<u32>) -> int {
    if rank <= 0 || rank > table.len() {
        0
    } else {
        table[rank - 1] as int
    }
}

/// Magnitude of `e` at `rank`.
pub open spec fn effect_bps(e: Effect, rank: int) -> int {
    bps_for(rank, effect_table(e))
}

/// The entry of `table` for `rank`, or 0 at rank 0 or beyond the table.
pub fn lookup_bps(rank: u8, table: &[u32]) -> (r: u32)
    ensures
        r == bps_for(rank as int, table@),
{
    if rank == 0 || rank as usize > table.len() {
        return 0;
    }
    table[rank as usize - 1]
}

/// Magnitude of `e` at `rank`, never above its top rank's.
pub fn effect_bps_at(e: Effect, rank: u8) -> (r: u32)
    ensures
        r == effect_bps(e, rank as int),
        r <= effect_max(e),
{
    let r = match e {
        Effect::Armor => lookup_bps(rank, &[400, 800, 1200, 1600, 2400]),
        Effect::IronSkin => lookup_bps(rank, &[1000, 1500, 2000, 2500, 3000]),
        Effect::VitalityStrike => lookup_bps(rank, &[25, 40, 60]),
        Effect::HeavyHitter => lookup_bps(rank, &[400, 800, 1200, 1600, 2400]),
        Effect::CriticalStrike => lookup_bps(rank, &[700, 1680, 3360, 5040, 7000]),
        Effect::Experience => lookup_bps(rank, &[1000, 1700, 2400, 3200, 4000]),
        Effect::Execute => lookup_bps(rank, &[800, 1600, 2400, 3200, 4800]),
        Effect::Berserker => lookup_bps(rank, &[2500, 4000, 5500]),
    };
    r
}

} // verus!
