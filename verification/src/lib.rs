//! A presentation and frame-synchronisation engine for an explicit graphics
//! API, with the rules it rests on.
//!
//! The engine owns no device. It is a state machine that is told what
//! happened and answers what to do next; a driver performs the answers on
//! the window system and the device. Every function is verified against its
//! contract, and the laws of the engine are proved over its model.
//!
//! - [`surface`]: what a surface reports, and the negotiation of a chain's
//!   configuration from it.
//! - [`queue_family`], [`device`]: the choice of queue families and of a
//!   physical device.
//! - [`chain`]: the image chain, its render targets and command sequences.
//! - [`engine`]: the engine, its model and its steps.
//! - [`laws`]: what holds of every run of the engine.
//! - [`mipmap`]: the blits that fill the mip levels of a texture.

pub mod chain;
pub mod device;
pub mod engine;
pub mod laws;
pub mod mipmap;
pub mod queue_family;
pub mod surface;
