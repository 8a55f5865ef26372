//! Rules engine of an arena combat game: the level curve, the talent tree and its
//! allocation rules, the fixed-point damage engine, the death and respawn cycle, and
//! the growth of a stored player record to its current layout.
pub mod allocation;
pub mod combat;
pub mod damage;
pub mod error;
pub mod migration;
pub mod progression;
pub mod state;
pub mod talents;

pub use allocation::{allocate_talent, reset_talents};
pub use combat::{process_attack, reset_player, respawn_player, upgrade_stat};
pub use damage::compute_hit_damage;
pub use error::CombatError;
pub use migration::{lamports_to_fund, migrate_player};
pub use progression::{calc_level, calc_talent_points};
pub use state::{Arena, PlayerState, effective_max_health, init_arena, register_player};
pub use talents::{Effect, effect_bps_at, lookup_bps, max_rank_for_talent, talent_prerequisite};
