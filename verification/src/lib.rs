//! Core logic of a stereo-to-mono audio splitting toolchain.
//!
//! The library models the channel-split transcoding pipeline: time-base
//! arithmetic, per-channel extraction, encoder and filter configuration,
//! the pipeline driver's state machine, pre-flight stream validation, and
//! the project/pack bookkeeping built on top of it.

pub mod awc;
pub mod dat54;
pub mod driver;
pub mod encode;
pub mod errors;
pub mod filtercfg;
pub mod frames;
pub mod lexord;
pub mod paths;
pub mod probe;
pub mod project;
pub mod state;
pub mod timebase;
pub mod units;
pub mod xml;
