//! A small mixer library for a fixed-period audio engine.
//!
//! The library owns the control-plane logic of the mixer: named strips with a
//! gain factor and a list of input/output port pairs, a registry that maps
//! strip names to strips, the planning of port registrations against the audio
//! engine, and the textual state report. The surrounding binary performs the
//! actual engine and IPC calls and feeds plain values in and out.

pub mod args;
pub mod dbus_worker;
pub mod errors;
pub mod laws;
pub mod registry;
pub mod strip;
pub mod text;
