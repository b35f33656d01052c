//! Lockstep netplay core for two-player link battles run under an emulator:
//! the input-pair queue, the rollback/fast-forward round engine, the shadow
//! and replayer validation rules, the wire and replay codecs, and the
//! per-title trap tables that host them.

use vstd::prelude::*;

pub mod battle;
pub mod discord;
pub mod game;
pub mod lockstep;
pub mod replay;
pub mod replayer;
pub mod round;
pub mod save;
pub mod shadow;
pub mod wire;

verus! {

/// Largest distance, in ticks, that the engine may run ahead of the last
/// committed save state before it refuses to step further.
pub const MAX_ROLLBACK: u32 = 10;

/// Largest distance, in ticks, that one side's input producer may run
/// ahead of the other before the queue refuses further local inputs.
pub const MAX_LAG: usize = 10;

} // verus!
