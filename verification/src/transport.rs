//! Transport and player state machines, and time signatures.
use vstd::prelude::*;

verus! {

/// Playback state of the transport.
#[derive(Debug, Clone, Copy, PartialEq, Eq, Structural)]
pub enum TransportState {
    Stopped,
    Playing,
    Paused,
    Recording,
}

/// A transport state change: the state it leads to, and whether the
/// position returns to the start.
#[derive(Debug, Clone, Copy, PartialEq, Eq, Structural)]
pub struct TransportStep {
    pub state: TransportState,
    pub rewind: bool,
}

impl TransportState {
    /// Start playback: from a stop the position returns to the start.
    pub fn play(self) -> (r: TransportStep)
        ensures
            r == (TransportStep { state: TransportState::Playing, rewind: self == TransportState::Stopped }),
    {
        TransportStep { state: TransportState::Playing, rewind: self == TransportState::Stopped }
    }

    /// Stop playback and return to the start.
    pub fn stop(self) -> (r: TransportStep)
        ensures
            r == (TransportStep { state: TransportState::Stopped, rewind: true }),
    {
        TransportStep { state: TransportState::Stopped, rewind: true }
    }

    /// Pause playback, keeping the position; only a playing transport pauses.
    pub fn pause(self) -> (r: TransportStep)
        ensures
            r == (TransportStep {
                state: if self == TransportState::Playing { TransportState::Paused } else { self },
                rewind: false,
            }),
    {
        if self == TransportState::Playing {
            TransportStep { state: TransportState::Paused, rewind: false }
        } else {
            TransportStep { state: self, rewind: false }
        }
    }

    /// Toggle play/pause: a stopped or paused transport plays, a playing one
    /// pauses, a recording one stops.
    pub fn toggle_playback(self) -> (r: TransportStep)
        ensures
            r == (match self {
                TransportState::Stopped => TransportStep { state: TransportState::Playing, rewind: true },
                TransportState::Playing => TransportStep { state: TransportState::Paused, rewind: false },
                TransportState::Paused => TransportStep { state: TransportState::Playing, rewind: false },
                TransportState::Recording => TransportStep { state: TransportState::Stopped, rewind: true },
            }),
    {
        match self {
            TransportState::Stopped => self.play(),
            TransportState::Playing => self.pause(),
            TransportState::Paused => self.play(),
            TransportState::Recording => self.stop(),
        }
    }
}

/// Toggling twice from playing or paused comes back to the same state
/// without ever returning to the start.
pub proof fn lemma_toggle_twice(s: TransportState)
    requires
        s == TransportState::Playing || s == TransportState::Paused,
    ensures
        ({
            let first = match s {
                TransportState::Playing => TransportState::Paused,
                _ => TransportState::Playing,
            };
            let second = match first {
                TransportState::Playing => TransportState::Paused,
                _ => TransportState::Playing,
            };
            second == s
        }),
{
}

/// Time signature (e.g. 4/4, 3/4).
#[derive(Debug, Clone, Copy, PartialEq, Eq, Structural)]
pub struct TimeSignature {
    /// Beats per bar (top number).
    pub numerator: u8,
    /// Beat value (bottom number: 4 = quarter, 8 = eighth).
    pub denominator: u8,
}

impl TimeSignature {
    pub fn new(numerator: u8, denominator: u8) -> (r: TimeSignature)
        ensures
            r == (TimeSignature { numerator, denominator }),
    {
        TimeSignature { numerator, denominator }
    }

    /// Common 4/4 time.
    pub fn four_four() -> (r: TimeSignature)
        ensures
            r == (TimeSignature { numerator: 4, denominator: 4 }),
    {
        TimeSignature { numerator: 4, denominator: 4 }
    }

    /// 3/4 waltz time.
    pub fn three_four() -> (r: TimeSignature)
        ensures
            r == (TimeSignature { numerator: 3, denominator: 4 }),
    {
        TimeSignature { numerator: 3, denominator: 4 }
    }
}

impl Default for TimeSignature {
    fn default() -> (r: TimeSignature)
        ensures
            r == (TimeSignature { numerator: 4, denominator: 4 }),
    {
        Self::four_four()
    }
}

/// Playback state of an audio clip player.
#[derive(Debug, Clone, Copy, PartialEq, Eq, Structural)]
pub enum PlaybackState {
    Stopped,
    Playing,
    Paused,
}

impl PlaybackState {
    /// Start playback; a player without a clip stays as it is.
    pub fn play(self, has_clip: bool) -> (r: PlaybackState)
        ensures
            r == (if has_clip { PlaybackState::Playing } else { self }),
    {
        if has_clip { PlaybackState::Playing } else { self }
    }

    /// Pause playback; only a playing player pauses.
    pub fn pause(self) -> (r: PlaybackState)
        ensures
            r == (if self == PlaybackState::Playing { PlaybackState::Paused } else { self }),
    {
        if self == PlaybackState::Playing { PlaybackState::Paused } else { self }
    }
}

} // verus!
