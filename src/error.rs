use vstd::prelude::*;

verus! {

/// Every way an operation on a player record or the arena can be refused.
/// A refused operation leaves every record it was given unchanged.
#[derive(Clone, Copy, Debug, PartialEq, Eq, Structural)]
pub enum CombatError {
    NotInitialized,
    AttackerDead,
    VictimDead,
    ArenaInactive,
    AlreadyAlive,
    RespawnCooldown,
    InsufficientXP,
    InvalidStatType,
    MaxLevel,
    InvalidTalentId,
    NoTalentPoints,
    TalentMaxed,
    PrerequisiteNotMet,
    MaxCapstones,
    InvalidHitCount,
    InvalidMigration,
}

} // verus!
