//! Clips: references to patterns (or audio files) placed on the playlist.
use vstd::prelude::*;
use vstd::string::*;
use crate::{BeatTime, Float64, Id};
use crate::pattern::PatternId;
use crate::text::copy_optional_text;

verus! {

/// Unique identifier for a clip.
pub type ClipId = Id;

/// Bit pattern of the unit time-stretch ratio, 1.0.
pub const UNIT_STRETCH_BITS: u64 = 0x3FF0_0000_0000_0000;

/// A clip in the playlist - references a pattern placed at a time position.
#[derive(Clone, Debug, PartialEq)]
pub struct PlaylistClip {
    pub id: ClipId,
    /// Pattern that this clip plays.
    pub pattern_id: PatternId,
    /// Track index in the playlist.
    pub track_index: usize,
    /// When the clip starts in the playlist (in beats).
    pub start_beat: BeatTime,
    /// How long it plays (in beats).
    pub duration_beats: BeatTime,
    /// If true, the pattern loops to fill the duration.
    pub looped: bool,
    /// Color override (None = use pattern color).
    pub color: Option<String>,
    /// Clip name override (None = use pattern name).
    pub name: Option<String>,
    /// Mute state.
    pub muted: bool,
}

impl PlaylistClip {
    /// Create a new playlist clip: looped, unmuted, with no overrides.
    pub fn new(
        id: ClipId,
        pattern_id: PatternId,
        track_index: usize,
        start_beat: BeatTime,
        duration_beats: BeatTime,
    ) -> (r: PlaylistClip)
        ensures
            r == (PlaylistClip {
                id,
                pattern_id,
                track_index,
                start_beat,
                duration_beats,
                looped: true,
                color: None,
                name: None,
                muted: false,
            }),
    {
        PlaylistClip {
            id,
            pattern_id,
            track_index,
            start_beat,
            duration_beats,
            looped: true,
            color: None,
            name: None,
            muted: false,
        }
    }

    /// Move the clip to a new start position.
    pub fn move_to(&mut self, new_start: BeatTime)
        ensures
            *final(self) == (PlaylistClip { start_beat: new_start, ..*old(self) }),
    {
        self.start_beat = new_start;
    }

    /// Toggle loop state; returns the new state.
    pub fn toggle_loop(&mut self) -> (r: bool)
        ensures
            r == !old(self).looped,
            *final(self) == (PlaylistClip { looped: r, ..*old(self) }),
    {
        self.looped = !self.looped;
        self.looped
    }

    /// Toggle mute state; returns the new state.
    pub fn toggle_mute(&mut self) -> (r: bool)
        ensures
            r == !old(self).muted,
            *final(self) == (PlaylistClip { muted: r, ..*old(self) }),
    {
        self.muted = !self.muted;
        self.muted
    }
}

/// A reference to a clip occurrence (for selection/editing).
#[derive(Clone, Copy, Debug, PartialEq, Eq, Structural)]
pub struct ClipOccurrence {
    pub clip_id: ClipId,
    pub pattern_id: PatternId,
    pub start_beat: BeatTime,
    pub track_index: usize,
}

/// Types of clips.
#[derive(Clone, Debug, PartialEq)]
pub enum Clip {
    /// Pattern-based clip (MIDI/notes).
    Pattern(PlaylistClip),
    /// Automation clip.
    Automation(PlaylistClip),
    /// Audio clip (direct audio file).
    Audio(AudioClip),
}

/// Audio clip data.
#[derive(Clone, Debug, PartialEq)]
pub struct AudioClip {
    pub id: ClipId,
    pub file_path: String,
    pub track_index: usize,
    pub start_beat: BeatTime,
    pub duration_beats: BeatTime,
    /// Offset into the audio file to start playing from, in seconds.
    pub file_offset_seconds: Float64,
    /// Time-stretch ratio.
    pub time_stretch: Float64,
    pub muted: bool,
}

impl AudioClip {
    /// Create a new audio clip: no offset, unit stretch, unmuted.
    pub fn new(
        id: ClipId,
        file_path: &str,
        track_index: usize,
        start_beat: BeatTime,
        duration_beats: BeatTime,
    ) -> (r: AudioClip)
        ensures
            r.id == id,
            r.file_path@ == file_path@,
            r.track_index == track_index,
            r.start_beat == start_beat,
            r.duration_beats == duration_beats,
            r.file_offset_seconds.bits == 0,
            r.time_stretch.bits == UNIT_STRETCH_BITS,
            !r.muted,
    {
        AudioClip {
            id,
            file_path: String::from_str(file_path),
            track_index,
            start_beat,
            duration_beats,
            file_offset_seconds: Float64 { bits: 0 },
            time_stretch: Float64 { bits: UNIT_STRETCH_BITS },
            muted: false,
        }
    }
}

impl PlaylistClip {
    /// A copy of the clip.
    pub fn copy(&self) -> (r: PlaylistClip)
        ensures
            r == *self,
    {
        PlaylistClip {
            color: copy_optional_text(&self.color),
            name: copy_optional_text(&self.name),
            ..*self
        }
    }
}

} // verus!
