//! A two-seat, turn-based combat coordinator.
//!
//! The library holds the decisions of the match: admission of the two
//! participants, move resolution, the refresh cycle and the bounded random
//! stats. Messaging, entropy and the enclosing program stay with the caller,
//! which hands the library the values it received and performs what the
//! library returns.
use vstd::prelude::*;

pub mod actor;
pub mod battle;
pub mod combat;
pub mod event;
pub mod laws;
pub mod random;

pub use actor::ActorId;
pub use battle::{Battle, Player, GAS_AMOUNT, MAX_STEPS_FOR_ROUND, TIME_FOR_UPDATE};
pub use combat::{resolve_move, AttributeId, SWORD_ID, SWORD_POWER};
pub use event::{BattleAction, BattleError, BattleEvent, BattleState, Reaction};
pub use random::{generate_power, get_turn, MAX_POWER, MID_POWER, MIN_POWER};
