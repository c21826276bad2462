//! Electrode driver and closed-loop droplet motion for a digital-microfluidics
//! electrode array.
use vstd::prelude::*;

pub mod board;
pub mod broker;
pub mod collector;
pub mod driver;
pub mod electrodes;
pub mod location;
pub mod motion;
pub mod reader;
pub mod rpc;
pub mod settings;
pub mod websocket;

verus! {

/// Number of electrodes driven by the array hardware.
pub const N_PINS: usize = 128;

} // verus!
