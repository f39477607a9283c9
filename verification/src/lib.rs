//! Verified core logic of a DMX lighting controller board: configuration
//! parsing and validation, the DMX universe store, Art-Net and sACN packet
//! handling, pixel effects, and the decisions of the audio, display and
//! sensor tasks.

use vstd::prelude::*;

pub mod artnet;
pub mod audio;
pub mod bounded;
pub mod bytes;
pub mod config;
pub mod dimmer;
pub mod display;
pub mod dmx;
pub mod effects;
pub mod jsonc;
pub mod neo;
pub mod sacn;
pub mod sensors;
pub mod stream;
pub mod text;

verus! {

/// Number of DMX universes the board stores (1-based in the config).
pub const MAX_UNIVERSES: usize = 4;

/// Per-port NeoPixel buffer size; must cover the longest strip in any config.
pub const MAX_PIXELS: usize = 256;

/// Channels in one DMX universe.
pub const DMX_CHANNELS: usize = 512;

} // verus!
