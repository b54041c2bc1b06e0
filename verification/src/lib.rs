//! Core data model and editing logic of a pattern-based digital audio
//! workstation: notes, patterns, channels, playlist tracks and clips, the
//! project that holds them, the commands that edit a project, the
//! dispatcher that runs them by name and keeps their undo history, MIDI
//! events and their wire format, and the small pieces of arithmetic the
//! editors rely on.
//!
//! Floating-point quantities (beat positions, tempo, gain) are carried as
//! their IEEE-754 bit patterns: the library stores, copies and compares
//! them for identity only, and the host performs arithmetic on them.
use vstd::prelude::*;

pub mod audio;
pub mod channel;
pub mod clip;
pub mod commands;
pub mod dispatch;
pub mod hardware;
pub mod midi;
pub mod note;
pub mod pattern;
pub mod playlist;
pub mod project;
pub mod synth;
pub mod text;
pub mod time;
pub mod transport;
pub mod ui;

verus! {

/// Identifier shared by every kind of entity in a project.
pub type Id = usize;

/// A binary64 floating-point value held by its bit pattern.
#[derive(Clone, Copy, Debug, PartialEq, Eq, Structural)]
pub struct Float64 {
    pub bits: u64,
}

/// A binary32 floating-point value held by its bit pattern.
#[derive(Clone, Copy, Debug, PartialEq, Eq, Structural)]
pub struct Float32 {
    pub bits: u32,
}

/// Time position in beats (musical time).
pub type BeatTime = Float64;

/// Sample-accurate time (for the audio engine).
pub type SampleTime = i64;

} // verus!
