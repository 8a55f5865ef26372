use vstd::prelude::*;

verus! {

/// Highest level a player can reach.
pub const MAX_LEVEL: u8 = 100;

/// Experience unit of the level curve.
pub const LEVEL_SCALE: u64 = 10;

/// Experience needed to complete level `lvl`: `(2·lvl − 1)·10`, with a surcharge of
/// 1% per level above 50.
pub open spec fn level_cost(lvl: int) -> int {
    let base = (2 * lvl - 1) * 10;
    if lvl > 50 {
        base * (10000 + (lvl - 50) * 100) / 10000
    } else {
        base
    }
}

/// Experience needed to complete levels `1..=n`.
pub open spec fn cumulative_cost(n: int) -> int
    decreases n,
{
    if n <= 0 {
        0
    } else {
        cumulative_cost(n - 1) + level_cost(n)
    }
}

/// The level of a player with `xp` experience, given that levels below `lvl` are complete:
/// the first level at or above `lvl` that `xp` does not complete, or 100.
pub open spec fn level_from(xp: int, lvl: int) -> int
    decreases 100 - lvl,
{
    if lvl >= 100 {
        100
    } else if xp < cumulative_cost(lvl) {
        lvl
    } else {
        level_from(xp, lvl + 1)
    }
}

/// The level of a player with `xp` experience.
pub open spec fn level_of(xp: int) -> int {
    level_from(xp, 1)
}

/// Talent points granted at `level`: one for each of the thresholds 1, 3, 5, ..., 99
/// that `level` has reached.
pub open spec fn talent_points_of(level: int) -> int {
    if (level + 1) / 2 >= 50 {
        50
    } else if level < 0 {
        0
    } else {
        (level + 1) / 2
    }
}

proof fn lemma_level_cost_bounds(lvl: int)
    requires
        1 <= lvl <= 99,
    ensures
        10 <= level_cost(lvl) <= 3000,
{
    let base = (2 * lvl - 1) * 10;
    if lvl > 50 {
        let f = 10000 + (lvl - 50) * 100;
        assert(10000 <= f <= 14900);
        assert(10 <= base <= 1970);
        assert(base * 10000 <= base * f <= 1970 * 14900) by (nonlinear_arith)
            requires
                10000 <= f <= 14900,
                10 <= base <= 1970,
        ;
    }
}

proof fn lemma_cumulative_cost_bounds(n: int)
    requires
        0 <= n <= 99,
    ensures
        10 * n <= cumulative_cost(n) <= 3000 * n,
    decreases n,
{
    if n > 0 {
        lemma_cumulative_cost_bounds(n - 1);
        lemma_level_cost_bounds(n);
    }
}

proof fn lemma_level_from_bounds(xp: int, lvl: int)
    requires
        1 <= lvl <= 100,
    ensures
        lvl <= level_from(xp, lvl) <= 100,
    decreases 100 - lvl,
{
    if lvl < 100 && xp >= cumulative_cost(lvl) {
        lemma_level_from_bounds(xp, lvl + 1);
    }
}

proof fn lemma_level_from_monotonic(x: int, y: int, lvl: int)
    requires
        x <= y,
        1 <= lvl <= 100,
    ensures
        level_from(x, lvl) <= level_from(y, lvl),
    decreases 100 - lvl,
{
    if lvl < 100 {
        if x >= cumulative_cost(lvl) {
            lemma_level_from_monotonic(x, y, lvl + 1);
        } else if y >= cumulative_cost(lvl) {
            lemma_level_from_bounds(y, lvl + 1);
        }
    }
}

/// The level never falls as experience grows, and always lies in `[1, 100]`.
pub proof fn lemma_level_monotonic(x: u64, y: u64)
    requires
        x <= y,
    ensures
        1 <= level_of(x as int) <= level_of(y as int) <= 100,
{
    lemma_level_from_bounds(x as int, 1);
    lemma_level_from_bounds(y as int, 1);
    lemma_level_from_monotonic(x as int, y as int, 1);
}

/// The level reached with `xp` experience: one more than the number of levels below 100
/// whose cumulative cost `xp` covers.
pub fn calc_level(xp: u64) -> (r: u8)
    ensures
        r == level_of(xp as int),
        1 <= r <= MAX_LEVEL,
{
    proof {
        lemma_level_from_bounds(xp as int, 1);
    }
    let mut total_xp: u64 = 0;
    let mut lvl: u64 = 1;
    while lvl < MAX_LEVEL as u64
        invariant
            1 <= lvl <= 100,
            total_xp == cumulative_cost(lvl - 1),
            level_from(xp as int, lvl as int) == level_of(xp as int),
        decreases 100 - lvl,
    {
        proof {
            lemma_cumulative_cost_bounds(lvl - 1);
            lemma_level_cost_bounds(lvl as int);
        }
        let base_cost = (2 * lvl - 1) * LEVEL_SCALE;
        let cost = if lvl > 50 {
            assert(base_cost * (10000 + (lvl - 50) * 100) <= 1970 * 14900) by (nonlinear_arith)
                requires
                    base_cost <= 1970,
                    lvl <= 99,
            ;
            base_cost * (10000 + (lvl - 50) * 100) / 10000
        } else {
            base_cost
        };
        total_xp += cost;
        if xp < total_xp {
            return lvl as u8;
        }
        lvl += 1;
    }
    MAX_LEVEL
}

/// Talent points available at `level`: one at level 1 and one more at every odd level
/// up to 99, so 50 at level 100.
pub fn calc_talent_points(level: u8) -> (r: u16)
    ensures
        r == talent_points_of(level as int),
        r <= 50,
{
    let mut points: u16 = 0;
    let mut threshold: u16 = 1;
    let mut i: u16 = 0;
    while i < 50
        invariant
            0 <= i <= 50,
            threshold == 2 * i + 1,
            points == (if (level + 1) / 2 < i { (level + 1) / 2 } else { i as int }),
        decreases 50 - i,
    {
        if (level as u16) >= threshold {
            points += 1;
        }
        threshold += 2;
        i += 1;
    }
    points
}

} // verus!
