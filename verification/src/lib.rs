//! Simulation core of a top-down multiplayer shooter: the wire format of the
//! state-synchronisation protocol, the connection life cycle of client and
//! server, and the collision engine that both sides run every tick.
//!
//! Real quantities (lengths, angles in degrees, scale factors, seconds) are
//! fixed-point numbers: an `i64` or `u64` that counts steps of `1 / UNIT`.

use vstd::prelude::*;

pub mod buffs;
pub mod client;
pub mod collisions;
pub mod data_type;
pub mod fixed;
pub mod game;
pub mod input;
pub mod objects;
pub mod play_screen;
pub mod section;
pub mod send_structs;
pub mod server;
pub mod transport;
pub mod vector;
pub mod wire;

verus! {

/// Number of fixed-point steps that make up one whole unit.
pub const UNIT: i64 = 1_000_000;

/// Protocol version announced in the connection handshake.
pub const VERSION: u32 = 1;

/// Size of the buffer that a datagram is received into, in bytes.
pub const BUFFER_SIZE: usize = 512;

/// Duration of one simulation step at sixty steps per second, in fixed-point seconds.
pub const FPS_60: i64 = 16_667;

/// Distance that one movement input carries a character per second, in fixed-point units.
pub const SPEED: i64 = 7_000_000;

} // verus!
