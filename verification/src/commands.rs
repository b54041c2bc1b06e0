//! Commands that edit a project. Commands decouple user actions from data
//! mutations: any frontend builds one and executes it against a project.
use vstd::prelude::*;
use vstd::string::*;
use crate::BeatTime;
use crate::channel::{Channel, ChannelId, ChannelType, OscillatorType};
use crate::clip::ClipId;
use crate::note::Note;
use crate::pattern::{Pattern, PatternId, toggled, transposed_pitch};
use crate::playlist::{PlaylistTrack, TrackId, first_position, clip_ids, is_least_free_clip_id, DEFAULT_TRACK_HEIGHT};
use crate::project::{Project, is_next_id, toggled_mode};
use crate::clip::PlaylistClip;

verus! {

/// Why a command could not run.
#[derive(Clone, Debug, PartialEq)]
pub struct CommandError {
    pub message: String,
}

/// Result of executing a command.
#[derive(Clone, Copy, Debug, PartialEq, Eq, Structural)]
pub struct CommandResult {
    /// Whether the project was modified.
    pub modified: bool,
    /// Whether the command can be undone.
    pub undoable: bool,
}

/// A command that can be executed against a project.
pub trait Command: Send + Sync {
    /// Whether executing the command on `before` may end with `after` and
    /// the result `r`. A command that does not say holds nothing of its run.
    open spec fn runs(&self, before: Project, after: Project, r: Result<bool, CommandError>) -> bool {
        true
    }

    /// Whether the command can be undone; a command that does not say can.
    open spec fn undoable(&self) -> bool {
        true
    }

    /// Execute the command; `Ok(true)` when the project was modified.
    fn execute(&self, project: &mut Project) -> (r: Result<bool, CommandError>)
        ensures
            self.runs(*old(project), *final(project), r),
    ;

    /// Command name for logging/debugging.
    fn name(&self) -> &str;

    /// Whether this command can be undone.
    fn is_undoable(&self) -> (r: bool)
        ensures
            r == self.undoable(),
    ;
}

/// The message of the error for a pattern that cannot get an id: the
/// largest id is in use, so no id is left above every id in use.
pub open spec fn no_pattern_id_left() -> Seq<char> {
    "No pattern id left"@
}

fn pattern_ids_exhausted() -> (e: CommandError)
    ensures
        e.message@ == no_pattern_id_left(),
{
    CommandError { message: String::from_str("No pattern id left") }
}

/// The default color of a pattern created by name alone.
pub fn default_pattern_color() -> (r: String)
    ensures
        r@ == "#3b82f6"@,
{
    String::from_str("#3b82f6")
}

/// `after` is `before` with the pattern `id` replaced by `p`.
pub open spec fn pattern_replaced(before: Project, after: Project, id: PatternId, p: Pattern) -> bool {
    &&& after.patterns@ == before.patterns@.insert(id, p)
    &&& after == (Project { patterns: after.patterns, ..before })
}

/// `after` holds the same content as `before`.
pub open spec fn unchanged(before: Project, after: Project) -> bool {
    &&& after.patterns@ == before.patterns@
    &&& after == (Project { patterns: after.patterns, ..before })
}

/// `after` is `before` with the channel at `id` replaced by `c`.
pub open spec fn channel_replaced(before: Project, after: Project, id: ChannelId, c: Channel) -> bool {
    &&& id < before.channels@.len()
    &&& after.channels@ == before.channels@.update(id as int, c)
    &&& after == (Project { channels: after.channels, ..before })
}

/// `after` is `before` with the track at `id` replaced by `t`.
pub open spec fn track_replaced(before: Project, after: Project, id: TrackId, t: PlaylistTrack) -> bool {
    &&& id < before.playlist_tracks@.len()
    &&& after.playlist_tracks@ == before.playlist_tracks@.update(id as int, t)
    &&& after == (Project { playlist_tracks: after.playlist_tracks, ..before })
}

// === Pattern Commands ===

/// Create a new pattern.
#[derive(Debug, Clone)]
pub struct CreatePattern {
    pub name: String,
    pub color: String,
}

impl Command for CreatePattern {
    open spec fn runs(&self, before: Project, after: Project, r: Result<bool, CommandError>) -> bool {
        if before.patterns@.contains_key(usize::MAX) {
            &&& r matches Err(e) && e.message@ == no_pattern_id_left()
            &&& after == before
        } else {
            &&& r == Ok::<bool, CommandError>(true)
            &&& exists|id: PatternId| {
                &&& is_next_id(before.patterns@.dom(), id as int)
                &&& #[trigger] after.patterns@.contains_key(id)
                &&& after.patterns@[id].fresh(id, self.name@, self.color@)
                &&& after.patterns@ == before.patterns@.insert(id, after.patterns@[id])
            }
            &&& after == (Project { patterns: after.patterns, dirty: true, ..before })
        }
    }

    fn execute(&self, project: &mut Project) -> (r: Result<bool, CommandError>)
    {
        if project.get_pattern(usize::MAX).is_some() {
            return Err(pattern_ids_exhausted());
        }
        let _id = project.create_pattern(self.name.as_str(), self.color.as_str());
        Ok(true)
    }

    fn is_undoable(&self) -> (r: bool) {
        true
    }

    fn name(&self) -> (r: &str)
        ensures
            r@ == "create_pattern"@,
    {
        "create_pattern"
    }
}

/// Delete a pattern.
#[derive(Debug, Clone, Copy)]
pub struct DeletePattern {
    pub pattern_id: PatternId,
}

impl Command for DeletePattern {
    open spec fn runs(&self, before: Project, after: Project, r: Result<bool, CommandError>) -> bool {
        &&& r == Ok::<bool, CommandError>(before.patterns@.contains_key(self.pattern_id))
        &&& after.patterns@ == before.patterns@.remove(self.pattern_id)
        &&& after == (Project {
            patterns: after.patterns,
            dirty: before.dirty || before.patterns@.contains_key(self.pattern_id),
            ..before
        })
    }

    fn execute(&self, project: &mut Project) -> (r: Result<bool, CommandError>)
    {
        if project.delete_pattern(self.pattern_id).is_some() {
            Ok(true)
        } else {
            Ok(false)
        }
    }

    fn is_undoable(&self) -> (r: bool) {
        true
    }

    fn name(&self) -> (r: &str)
        ensures
            r@ == "delete_pattern"@,
    {
        "delete_pattern"
    }
}

/// Duplicate a pattern.
#[derive(Debug, Clone, Copy)]
pub struct DuplicatePattern {
    pub pattern_id: PatternId,
}

impl Command for DuplicatePattern {
    open spec fn runs(&self, before: Project, after: Project, r: Result<bool, CommandError>) -> bool {
        if before.patterns@.contains_key(self.pattern_id) && before.patterns@.contains_key(usize::MAX) {
            &&& r matches Err(e) && e.message@ == no_pattern_id_left()
            &&& after == before
        } else {
            &&& r == Ok::<bool, CommandError>(before.patterns@.contains_key(self.pattern_id))
            &&& !before.patterns@.contains_key(self.pattern_id) ==> after == before
            &&& before.patterns@.contains_key(self.pattern_id) ==> exists|new_id: PatternId| {
                let original = before.patterns@[self.pattern_id];
                let copy = #[trigger] after.patterns@[new_id];
                &&& is_next_id(before.patterns@.dom(), new_id as int)
                &&& after.patterns@ == before.patterns@.insert(new_id, copy)
                &&& copy == (Pattern { id: new_id, name: copy.name, color: copy.color, notes: copy.notes, step_data: copy.step_data, ..original })
                &&& copy.name@ == original.name@ + " Copy"@
                &&& copy.color@ == original.color@
                &&& copy.notes@ == original.notes@
                &&& copy.steps() == original.steps()
                &&& after == (Project { patterns: after.patterns, dirty: true, ..before })
            }
        }
    }

    fn execute(&self, project: &mut Project) -> (r: Result<bool, CommandError>)
    {
        if project.get_pattern(self.pattern_id).is_some() && project.get_pattern(usize::MAX).is_some() {
            return Err(pattern_ids_exhausted());
        }
        if project.duplicate_pattern(self.pattern_id).is_some() {
            Ok(true)
        } else {
            Ok(false)
        }
    }

    fn is_undoable(&self) -> (r: bool) {
        true
    }

    fn name(&self) -> (r: &str)
        ensures
            r@ == "duplicate_pattern"@,
    {
        "duplicate_pattern"
    }
}

/// Set the current pattern (for pattern mode).
#[derive(Debug, Clone, Copy)]
pub struct SetCurrentPattern {
    pub pattern_id: PatternId,
}

impl Command for SetCurrentPattern {
    open spec fn runs(&self, before: Project, after: Project, r: Result<bool, CommandError>) -> bool {
        &&& after == (Project {
            current_pattern_id: if before.patterns@.contains_key(self.pattern_id) {
                self.pattern_id
            } else {
                before.current_pattern_id
            },
            ..before
        })
        &&& r == Ok::<bool, CommandError>(after.current_pattern_id != before.current_pattern_id)
    }

    fn execute(&self, project: &mut Project) -> (r: Result<bool, CommandError>)
    {
        let old_id = project.current_pattern_id;
        project.set_current_pattern(self.pattern_id);
        Ok(project.current_pattern_id != old_id)
    }

    fn is_undoable(&self) -> (r: bool) {
        true
    }

    fn name(&self) -> (r: &str)
        ensures
            r@ == "set_current_pattern"@,
    {
        "set_current_pattern"
    }
}

/// Add a note to a pattern.
#[derive(Debug, Clone, Copy)]
pub struct AddNote {
    pub pattern_id: PatternId,
    pub pitch: u8,
    pub velocity: u8,
    pub start_beat: BeatTime,
    pub duration_beats: BeatTime,
}

impl Command for AddNote {
    open spec fn runs(&self, before: Project, after: Project, r: Result<bool, CommandError>) -> bool {
        &&& r == Ok::<bool, CommandError>(before.patterns@.contains_key(self.pattern_id))
        &&& !before.patterns@.contains_key(self.pattern_id) ==> unchanged(before, after)
        &&& before.patterns@.contains_key(self.pattern_id) ==> {
            let p = before.patterns@[self.pattern_id];
            pattern_replaced(before, after, self.pattern_id, Pattern {
                notes: after.patterns@[self.pattern_id].notes,
                ..p
            }) && after.patterns@[self.pattern_id].notes@ == p.notes@.push(Note {
                pitch: self.pitch,
                velocity: self.velocity,
                start_beat: self.start_beat,
                duration_beats: self.duration_beats,
            })
        }
    }

    fn execute(&self, project: &mut Project) -> (r: Result<bool, CommandError>)
    {
        match project.get_pattern_mut(self.pattern_id) {
            Some(pattern) => {
                pattern.add_note(self.pitch, self.velocity, self.start_beat, self.duration_beats);
                Ok(true)
            },
            None => Ok(false),
        }
    }

    fn is_undoable(&self) -> (r: bool) {
        true
    }

    fn name(&self) -> (r: &str)
        ensures
            r@ == "add_note"@,
    {
        "add_note"
    }
}

/// Toggle a step in the step sequencer.
#[derive(Debug, Clone, Copy)]
pub struct ToggleStep {
    pub pattern_id: PatternId,
    pub channel_id: ChannelId,
    pub step: usize,
}

impl Command for ToggleStep {
    open spec fn runs(&self, before: Project, after: Project, r: Result<bool, CommandError>) -> bool {
        &&& r == Ok::<bool, CommandError>(before.patterns@.contains_key(self.pattern_id))
        &&& !before.patterns@.contains_key(self.pattern_id) ==> unchanged(before, after)
        &&& before.patterns@.contains_key(self.pattern_id) ==> {
            let p = before.patterns@[self.pattern_id];
            let q = after.patterns@[self.pattern_id];
            &&& pattern_replaced(before, after, self.pattern_id, Pattern { step_data: q.step_data, ..p })
            &&& q.steps() == p.steps().insert(self.channel_id, toggled(p.row_or_blank(self.channel_id), self.step as int))
        }
    }

    fn execute(&self, project: &mut Project) -> (r: Result<bool, CommandError>)
    {
        match project.get_pattern_mut(self.pattern_id) {
            Some(pattern) => {
                pattern.toggle_step(self.channel_id, self.step);
                Ok(true)
            },
            None => Ok(false),
        }
    }

    fn is_undoable(&self) -> (r: bool) {
        true
    }

    fn name(&self) -> (r: &str)
        ensures
            r@ == "toggle_step"@,
    {
        "toggle_step"
    }
}

/// Transpose a pattern.
#[derive(Debug, Clone, Copy)]
pub struct TransposePattern {
    pub pattern_id: PatternId,
    pub semitones: i8,
}

impl Command for TransposePattern {
    open spec fn runs(&self, before: Project, after: Project, r: Result<bool, CommandError>) -> bool {
        &&& r == Ok::<bool, CommandError>(before.patterns@.contains_key(self.pattern_id))
        &&& !before.patterns@.contains_key(self.pattern_id) ==> unchanged(before, after)
        &&& before.patterns@.contains_key(self.pattern_id) ==> {
            let p = before.patterns@[self.pattern_id];
            let q = after.patterns@[self.pattern_id];
            &&& pattern_replaced(before, after, self.pattern_id, Pattern { notes: q.notes, ..p })
            &&& q.notes@.len() == p.notes@.len()
            &&& forall|i: int| 0 <= i < p.notes@.len() ==> #[trigger] q.notes@[i] == (Note {
                pitch: transposed_pitch(p.notes@[i].pitch, self.semitones),
                ..p.notes@[i]
            })
        }
    }

    fn execute(&self, project: &mut Project) -> (r: Result<bool, CommandError>)
    {
        match project.get_pattern_mut(self.pattern_id) {
            Some(pattern) => {
                pattern.transpose(self.semitones);
                Ok(true)
            },
            None => Ok(false),
        }
    }

    fn is_undoable(&self) -> (r: bool) {
        true
    }

    fn name(&self) -> (r: &str)
        ensures
            r@ == "transpose_pattern"@,
    {
        "transpose_pattern"
    }
}

// === Channel Commands ===

/// Add a synthesizer channel.
#[derive(Debug, Clone)]
pub struct AddSynthChannel {
    pub name: String,
    pub color: String,
}

impl Command for AddSynthChannel {
    open spec fn runs(&self, before: Project, after: Project, r: Result<bool, CommandError>) -> bool {
        &&& r == Ok::<bool, CommandError>(true)
        &&& after.channels@.len() == before.channels@.len() + 1
        &&& after.channels@.drop_last() == before.channels@
        &&& after.channels@.last().fresh(before.channels@.len() as ChannelId, self.name@, self.color@)
        &&& after.channels@.last().channel_type matches ChannelType::Synthesizer { preset, osc_type }
            && preset@ == "Default"@ && osc_type == OscillatorType::Sine
        &&& after == (Project { channels: after.channels, dirty: true, ..before })
    }

    fn execute(&self, project: &mut Project) -> (r: Result<bool, CommandError>)
    {
        let id = project.channels.len();
        let channel = Channel::new_synth(id, self.name.as_str(), self.color.as_str());
        project.add_channel(channel);
        assert(project.channels@.drop_last() =~= old(project).channels@);
        Ok(true)
    }

    fn is_undoable(&self) -> (r: bool) {
        true
    }

    fn name(&self) -> (r: &str)
        ensures
            r@ == "add_synth_channel"@,
    {
        "add_synth_channel"
    }
}

/// The same optional text.
pub open spec fn same_text(a: Option<String>, b: Option<String>) -> bool {
    match (a, b) {
        (Some(x), Some(y)) => x@ == y@,
        (None, None) => true,
        _ => false,
    }
}

fn copy_text(a: &Option<String>) -> (r: Option<String>)
    ensures
        same_text(*a, r),
{
    match a {
        Some(s) => Some(s.clone()),
        None => None,
    }
}

/// Add a sampler channel.
#[derive(Debug, Clone)]
pub struct AddSamplerChannel {
    pub name: String,
    pub color: String,
    pub sample_path: Option<String>,
}

impl Command for AddSamplerChannel {
    open spec fn runs(&self, before: Project, after: Project, r: Result<bool, CommandError>) -> bool {
        &&& r == Ok::<bool, CommandError>(true)
        &&& after.channels@.len() == before.channels@.len() + 1
        &&& after.channels@.drop_last() == before.channels@
        &&& after.channels@.last().fresh(before.channels@.len() as ChannelId, self.name@, self.color@)
        &&& after.channels@.last().channel_type matches ChannelType::Sampler { sample_path, root_note, loop_sample }
            && same_text(sample_path, self.sample_path) && root_note is None && !loop_sample
        &&& after == (Project { channels: after.channels, dirty: true, ..before })
    }

    fn execute(&self, project: &mut Project) -> (r: Result<bool, CommandError>)
    {
        let id = project.channels.len();
        let channel = Channel::new_sampler(id, self.name.as_str(), self.color.as_str(), copy_text(&self.sample_path));
        project.add_channel(channel);
        assert(project.channels@.drop_last() =~= old(project).channels@);
        Ok(true)
    }

    fn is_undoable(&self) -> (r: bool) {
        true
    }

    fn name(&self) -> (r: &str)
        ensures
            r@ == "add_sampler_channel"@,
    {
        "add_sampler_channel"
    }
}

/// Remove a channel.
#[derive(Debug, Clone, Copy)]
pub struct RemoveChannel {
    pub channel_id: ChannelId,
}

impl Command for RemoveChannel {
    open spec fn runs(&self, before: Project, after: Project, r: Result<bool, CommandError>) -> bool {
        &&& r == Ok::<bool, CommandError>(self.channel_id < before.channels@.len())
        &&& self.channel_id < before.channels@.len() ==>
            after.channels@ == before.channels@.remove(self.channel_id as int)
            && after == (Project { channels: after.channels, dirty: true, ..before })
        &&& self.channel_id >= before.channels@.len() ==> after == before
    }

    fn execute(&self, project: &mut Project) -> (r: Result<bool, CommandError>)
    {
        if project.remove_channel(self.channel_id).is_some() {
            Ok(true)
        } else {
            Ok(false)
        }
    }

    fn is_undoable(&self) -> (r: bool) {
        true
    }

    fn name(&self) -> (r: &str)
        ensures
            r@ == "remove_channel"@,
    {
        "remove_channel"
    }
}

/// Toggle channel mute.
#[derive(Debug, Clone, Copy)]
pub struct ToggleChannelMute {
    pub channel_id: ChannelId,
}

impl Command for ToggleChannelMute {
    open spec fn runs(&self, before: Project, after: Project, r: Result<bool, CommandError>) -> bool {
        &&& r == Ok::<bool, CommandError>(self.channel_id < before.channels@.len())
        &&& self.channel_id < before.channels@.len() ==> {
            let c = before.channels@[self.channel_id as int];
            channel_replaced(before, after, self.channel_id, Channel { muted: !c.muted, ..c })
        }
        &&& self.channel_id >= before.channels@.len() ==> after == before
    }

    fn execute(&self, project: &mut Project) -> (r: Result<bool, CommandError>)
    {
        match project.get_channel_mut(self.channel_id) {
            Some(channel) => {
                channel.toggle_mute();
                Ok(true)
            },
            None => Ok(false),
        }
    }

    fn is_undoable(&self) -> (r: bool) {
        true
    }

    fn name(&self) -> (r: &str)
        ensures
            r@ == "toggle_channel_mute"@,
    {
        "toggle_channel_mute"
    }
}

/// Toggle channel solo.
#[derive(Debug, Clone, Copy)]
pub struct ToggleChannelSolo {
    pub channel_id: ChannelId,
}

impl Command for ToggleChannelSolo {
    open spec fn runs(&self, before: Project, after: Project, r: Result<bool, CommandError>) -> bool {
        &&& r == Ok::<bool, CommandError>(self.channel_id < before.channels@.len())
        &&& self.channel_id < before.channels@.len() ==> {
            let c = before.channels@[self.channel_id as int];
            channel_replaced(before, after, self.channel_id, Channel { solo: !c.solo, ..c })
        }
        &&& self.channel_id >= before.channels@.len() ==> after == before
    }

    fn execute(&self, project: &mut Project) -> (r: Result<bool, CommandError>)
    {
        match project.get_channel_mut(self.channel_id) {
            Some(channel) => {
                channel.toggle_solo();
                Ok(true)
            },
            None => Ok(false),
        }
    }

    fn is_undoable(&self) -> (r: bool) {
        true
    }

    fn name(&self) -> (r: &str)
        ensures
            r@ == "toggle_channel_solo"@,
    {
        "toggle_channel_solo"
    }
}

// === Playlist Commands ===

/// Add a clip to a track.
#[derive(Debug, Clone, Copy)]
pub struct AddClip {
    pub track_id: TrackId,
    pub pattern_id: PatternId,
    pub start_beat: BeatTime,
    pub duration_beats: BeatTime,
}

impl Command for AddClip {
    open spec fn runs(&self, before: Project, after: Project, r: Result<bool, CommandError>) -> bool {
        &&& r == Ok::<bool, CommandError>(self.track_id < before.playlist_tracks@.len())
        &&& self.track_id < before.playlist_tracks@.len() ==> {
            let t = before.playlist_tracks@[self.track_id as int];
            let id = after.playlist_tracks@[self.track_id as int].clips@.last().id;
            &&& is_least_free_clip_id(t.clips@, id)
            &&& track_replaced(before, after, self.track_id, PlaylistTrack {
                clips: after.playlist_tracks@[self.track_id as int].clips,
                ..t
            })
            &&& after.playlist_tracks@[self.track_id as int].clips@ == t.clips@.push(PlaylistClip {
                id,
                pattern_id: self.pattern_id,
                track_index: t.id,
                start_beat: self.start_beat,
                duration_beats: self.duration_beats,
                looped: true,
                color: None,
                name: None,
                muted: false,
            })
        }
        &&& self.track_id >= before.playlist_tracks@.len() ==> after == before
    }

    fn execute(&self, project: &mut Project) -> (r: Result<bool, CommandError>)
    {
        match project.get_track_mut(self.track_id) {
            Some(track) => {
                track.add_clip(self.pattern_id, self.start_beat, self.duration_beats);
                Ok(true)
            },
            None => Ok(false),
        }
    }

    fn is_undoable(&self) -> (r: bool) {
        true
    }

    fn name(&self) -> (r: &str)
        ensures
            r@ == "add_clip"@,
    {
        "add_clip"
    }
}

/// Remove a clip from a track.
#[derive(Debug, Clone, Copy)]
pub struct RemoveClip {
    pub track_id: TrackId,
    pub clip_id: ClipId,
}

impl Command for RemoveClip {
    open spec fn runs(&self, before: Project, after: Project, r: Result<bool, CommandError>) -> bool {
        &&& self.track_id < before.playlist_tracks@.len() ==> {
            let t = before.playlist_tracks@[self.track_id as int];
            match first_position(clip_ids(t.clips@), self.clip_id) {
                Some(i) => r == Ok::<bool, CommandError>(true) && track_replaced(
                    before,
                    after,
                    self.track_id,
                    PlaylistTrack { clips: after.playlist_tracks@[self.track_id as int].clips, ..t },
                ) && after.playlist_tracks@[self.track_id as int].clips@ == t.clips@.remove(i),
                None => r == Ok::<bool, CommandError>(false) && track_replaced(
                    before,
                    after,
                    self.track_id,
                    PlaylistTrack { clips: after.playlist_tracks@[self.track_id as int].clips, ..t },
                ) && after.playlist_tracks@[self.track_id as int].clips@ == t.clips@,
            }
        }
        &&& self.track_id >= before.playlist_tracks@.len() ==> r == Ok::<bool, CommandError>(false)
            && after == before
    }

    fn execute(&self, project: &mut Project) -> (r: Result<bool, CommandError>)
    {
        match project.get_track_mut(self.track_id) {
            Some(track) => {
                let removed = track.remove_clip(self.clip_id).is_some();
                Ok(removed)
            },
            None => Ok(false),
        }
    }

    fn is_undoable(&self) -> (r: bool) {
        true
    }

    fn name(&self) -> (r: &str)
        ensures
            r@ == "remove_clip"@,
    {
        "remove_clip"
    }
}

/// Move a clip to a new position.
#[derive(Debug, Clone, Copy)]
pub struct MoveClip {
    pub track_id: TrackId,
    pub clip_id: ClipId,
    pub new_start_beat: BeatTime,
}

impl Command for MoveClip {
    open spec fn runs(&self, before: Project, after: Project, r: Result<bool, CommandError>) -> bool {
        &&& r == Ok::<bool, CommandError>(self.track_id < before.playlist_tracks@.len())
        &&& self.track_id < before.playlist_tracks@.len() ==> {
            let t = before.playlist_tracks@[self.track_id as int];
            let moved = after.playlist_tracks@[self.track_id as int].clips@;
            &&& track_replaced(before, after, self.track_id, PlaylistTrack {
                clips: after.playlist_tracks@[self.track_id as int].clips,
                ..t
            })
            &&& match first_position(clip_ids(t.clips@), self.clip_id) {
                Some(i) => moved == t.clips@.update(i, PlaylistClip { start_beat: self.new_start_beat, ..t.clips@[i] }),
                None => moved == t.clips@,
            }
        }
        &&& self.track_id >= before.playlist_tracks@.len() ==> after == before
    }

    fn execute(&self, project: &mut Project) -> (r: Result<bool, CommandError>)
    {
        match project.get_track_mut(self.track_id) {
            Some(track) => {
                track.move_clip(self.clip_id, self.new_start_beat);
                Ok(true)
            },
            None => Ok(false),
        }
    }

    fn is_undoable(&self) -> (r: bool) {
        true
    }

    fn name(&self) -> (r: &str)
        ensures
            r@ == "move_clip"@,
    {
        "move_clip"
    }
}

/// Add a new track.
#[derive(Debug, Clone)]
pub struct AddTrack {
    pub name: String,
    pub color: String,
}

impl Command for AddTrack {
    open spec fn runs(&self, before: Project, after: Project, r: Result<bool, CommandError>) -> bool {
        &&& r == Ok::<bool, CommandError>(true)
        &&& after.playlist_tracks@.len() == before.playlist_tracks@.len() + 1
        &&& after.playlist_tracks@.drop_last() == before.playlist_tracks@
        &&& ({
            let t = after.playlist_tracks@.last();
            &&& t.id == before.playlist_tracks@.len()
            &&& t.index == before.playlist_tracks@.len()
            &&& t.name@ == self.name@
            &&& t.color@ == self.color@
            &&& t.clips@.len() == 0
            &&& !t.muted
            &&& !t.solo
            &&& t.height == DEFAULT_TRACK_HEIGHT
        })
        &&& after == (Project { playlist_tracks: after.playlist_tracks, dirty: true, ..before })
    }

    fn execute(&self, project: &mut Project) -> (r: Result<bool, CommandError>)
    {
        let track = PlaylistTrack::new(0, self.name.as_str(), self.color.as_str());
        project.add_track(track);
        assert(project.playlist_tracks@.drop_last() =~= old(project).playlist_tracks@);
        Ok(true)
    }

    fn is_undoable(&self) -> (r: bool) {
        true
    }

    fn name(&self) -> (r: &str)
        ensures
            r@ == "add_track"@,
    {
        "add_track"
    }
}

/// Remove a track.
#[derive(Debug, Clone, Copy)]
pub struct RemoveTrack {
    pub track_id: TrackId,
}

impl Command for RemoveTrack {
    open spec fn runs(&self, before: Project, after: Project, r: Result<bool, CommandError>) -> bool {
        &&& r == Ok::<bool, CommandError>(self.track_id < before.playlist_tracks@.len())
        &&& self.track_id < before.playlist_tracks@.len() ==>
            after.playlist_tracks@ == before.playlist_tracks@.remove(self.track_id as int)
            && after == (Project { playlist_tracks: after.playlist_tracks, dirty: true, ..before })
        &&& self.track_id >= before.playlist_tracks@.len() ==> after == before
    }

    fn execute(&self, project: &mut Project) -> (r: Result<bool, CommandError>)
    {
        if project.remove_track(self.track_id).is_some() {
            Ok(true)
        } else {
            Ok(false)
        }
    }

    fn is_undoable(&self) -> (r: bool) {
        true
    }

    fn name(&self) -> (r: &str)
        ensures
            r@ == "remove_track"@,
    {
        "remove_track"
    }
}

// === Transport/Project Commands ===

/// Set the time signature.
#[derive(Debug, Clone, Copy)]
pub struct SetTimeSignature {
    pub numerator: u8,
    pub denominator: u8,
}

impl Command for SetTimeSignature {
    open spec fn runs(&self, before: Project, after: Project, r: Result<bool, CommandError>) -> bool {
        &&& r == Ok::<bool, CommandError>(true)
        &&& after == (Project { time_sig_num: self.numerator, time_sig_denom: self.denominator, ..before })
    }

    fn execute(&self, project: &mut Project) -> (r: Result<bool, CommandError>)
    {
        project.time_sig_num = self.numerator;
        project.time_sig_denom = self.denominator;
        Ok(true)
    }

    fn is_undoable(&self) -> (r: bool) {
        true
    }

    fn name(&self) -> (r: &str)
        ensures
            r@ == "set_time_signature"@,
    {
        "set_time_signature"
    }
}

/// Toggle playback mode (Pattern/Song).
#[derive(Debug, Clone, Copy)]
pub struct TogglePlaybackMode;

impl Command for TogglePlaybackMode {
    open spec fn runs(&self, before: Project, after: Project, r: Result<bool, CommandError>) -> bool {
        &&& r == Ok::<bool, CommandError>(true)
        &&& after == (Project { playback_mode: toggled_mode(before.playback_mode), ..before })
    }

    fn execute(&self, project: &mut Project) -> (r: Result<bool, CommandError>)
    {
        project.toggle_playback_mode();
        Ok(true)
    }

    fn is_undoable(&self) -> (r: bool) {
        true
    }

    fn name(&self) -> (r: &str)
        ensures
            r@ == "toggle_playback_mode"@,
    {
        "toggle_playback_mode"
    }
}

} // verus!
