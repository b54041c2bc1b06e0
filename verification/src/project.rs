//! The project: root container for patterns, channels and playlist tracks.
use vstd::prelude::*;
use vstd::string::*;
use std::collections::HashMap;
use std::collections::hash_map::Entry;
use crate::{Float64, Id};
use crate::channel::{Channel, ChannelId, ChannelType, OscillatorType};
use crate::pattern::{Pattern, PatternId, same_pattern};
use crate::playlist::{PlaylistTrack, TrackId, DEFAULT_TRACK_HEIGHT, same_track};
use crate::text::{copy_optional_text, decimal, push_decimal};

verus! {

broadcast use vstd::std_specs::hash::group_hash_axioms;

/// Unique identifier for a project.
pub type ProjectId = Id;

/// Bit pattern of the default tempo, 120.0 beats per minute.
pub const DEFAULT_BPM_BITS: u64 = 0x405E_0000_0000_0000;

/// Default ticks per beat for time display.
pub const DEFAULT_TICKS_PER_BEAT: u16 = 960;

/// Current project file version.
pub const PROJECT_VERSION: u32 = 1;

/// Playback mode: Pattern mode or Song mode.
#[derive(Clone, Copy, Debug, PartialEq, Eq, Structural, Default)]
pub enum PlaybackMode {
    /// Play the selected pattern in a loop.
    #[default]
    Pattern,
    /// Play the full playlist arrangement.
    Song,
}

/// The complete project state.
#[derive(Clone, Debug, PartialEq)]
pub struct Project {
    /// Project ID.
    pub id: ProjectId,
    /// Project name.
    pub name: String,
    /// All patterns available in the project.
    pub patterns: HashMap<PatternId, Pattern>,
    /// Currently selected pattern for editing (UI state).
    pub selected_pattern_id: Option<PatternId>,
    /// Currently active pattern for pattern mode playback.
    pub current_pattern_id: PatternId,
    /// Channel rack channels.
    pub channels: Vec<Channel>,
    /// Playlist tracks.
    pub playlist_tracks: Vec<PlaylistTrack>,
    /// Current playback mode.
    pub playback_mode: PlaybackMode,
    /// Global tempo in beats per minute.
    pub bpm: Float64,
    /// Time signature numerator.
    pub time_sig_num: u8,
    /// Time signature denominator.
    pub time_sig_denom: u8,
    /// Ticks per beat for time display.
    pub ticks_per_beat: u16,
    /// Project file path (if saved).
    pub file_path: Option<String>,
    /// Whether the project has unsaved changes.
    pub dirty: bool,
    /// Project version for migration.
    pub version: u32,
}

/// `r` is the id the next created pattern gets when the patterns hold the
/// ids `ids`: one past the largest, or 0 when there are none.
pub open spec fn is_next_id(ids: Set<PatternId>, r: int) -> bool {
    &&& ids.is_empty() ==> r == 0
    &&& !ids.is_empty() ==> ids.contains((r - 1) as PatternId) && 1 <= r
    &&& forall|k: PatternId| ids.contains(k) ==> k < r
}

/// Every element of an enumeration of `ids` leaves room for a successor.
pub open spec fn scan_bounded(ids: Set<PatternId>) -> bool {
    forall|s: Seq<&PatternId>, j: int|
        #![trigger s.unref().to_set(), s[j]]
        s.unref().to_set() == ids && 0 <= j < s.len() ==> *s[j] < usize::MAX
}

/// A full scan of an enumeration of `ids` that ends at one past the
/// largest element yields the next id.
pub open spec fn scan_gives_next_id(ids: Set<PatternId>) -> bool {
    forall|s: Seq<&PatternId>, next: usize|
        #![trigger s.unref().to_set(), is_next_id(ids, next as int)]
        s.unref().to_set() == ids
            && (forall|j: int| 0 <= j < s.len() ==> *#[trigger] s[j] < next)
            && (s.len() == 0 <==> next == 0)
            && (next == 0 || (exists|j: int| 0 <= j < s.len() && *#[trigger] s[j] == next - 1))
            ==> is_next_id(ids, next as int)
}

proof fn lemma_scan_bounded(ids: Set<PatternId>)
    requires
        ids_below_max(ids),
    ensures
        scan_bounded(ids),
{
    assert forall|s: Seq<&PatternId>, j: int|
        #![trigger s.unref().to_set(), s[j]]
        s.unref().to_set() == ids && 0 <= j < s.len() implies *s[j] < usize::MAX by {
        assert(s.unref()[j] == *s[j]);
        assert(s.unref().to_set().contains(*s[j]));
    }
}

proof fn lemma_scan_next_id(ids: Set<PatternId>)
    ensures
        scan_gives_next_id(ids),
{
    assert forall|s: Seq<&PatternId>, next: usize|
        #![trigger s.unref().to_set(), is_next_id(ids, next as int)]
        s.unref().to_set() == ids
            && (forall|j: int| 0 <= j < s.len() ==> *#[trigger] s[j] < next)
            && (s.len() == 0 <==> next == 0)
            && (next == 0 || (exists|j: int| 0 <= j < s.len() && *#[trigger] s[j] == next - 1))
        implies is_next_id(ids, next as int) by {
        let u = s.unref();
        assert forall|k: PatternId| ids.contains(k) implies k < next by {
            assert(u.to_set().contains(k));
            assert(u.contains(k));
            let j = choose|j: int| 0 <= j < u.len() && u[j] == k;
            assert(*s[j] == k);
        }
        if next > 0 {
            let j = choose|j: int| 0 <= j < s.len() && *#[trigger] s[j] == next - 1;
            assert(u[j] == next - 1);
            assert(u.to_set().contains((next - 1) as PatternId));
        } else {
            assert(u.len() == 0);
            assert(u.to_set() =~= Set::<PatternId>::empty());
        }
    }
}

/// Number of channels and of tracks in a project made with defaults.
pub const DEFAULT_LANES: usize = 8;

/// Name of default channel `i`.
pub open spec fn default_channel_name(i: int) -> Seq<char> {
    if i == 0 { "Kick"@ }
    else if i == 1 { "Snare"@ }
    else if i == 2 { "HiHat"@ }
    else if i == 3 { "Clap"@ }
    else if i == 4 { "Bass"@ }
    else if i == 5 { "Lead"@ }
    else if i == 6 { "Pad"@ }
    else { "FX"@ }
}

/// Color of default channel `i`.
pub open spec fn default_channel_color(i: int) -> Seq<char> {
    if i == 0 { "#ef4444"@ }
    else if i == 1 { "#f97316"@ }
    else if i == 2 { "#fbbf24"@ }
    else if i == 3 { "#4ade80"@ }
    else if i == 4 { "#3b82f6"@ }
    else if i == 5 { "#a855f7"@ }
    else if i == 6 { "#ec4899"@ }
    else { "#22d3ee"@ }
}

/// Color of default track `i`.
pub open spec fn default_track_color(i: int) -> Seq<char> {
    if i == 0 { "#3b82f6"@ }
    else if i == 1 { "#ef4444"@ }
    else if i == 2 { "#4ade80"@ }
    else if i == 3 { "#fbbf24"@ }
    else if i == 4 { "#a855f7"@ }
    else if i == 5 { "#f97316"@ }
    else if i == 6 { "#22d3ee"@ }
    else { "#ec4899"@ }
}

/// Default channel `i`: a fresh synthesizer with the default name and color.
pub open spec fn default_channel(c: Channel, i: int) -> bool {
    &&& c.fresh(i as ChannelId, default_channel_name(i), default_channel_color(i))
    &&& c.channel_type matches ChannelType::Synthesizer { preset, osc_type }
        && preset@ == "Default"@ && osc_type == OscillatorType::Sine
}

/// Default track `i`: "Track {i + 1}", empty, with the default color.
pub open spec fn default_track(t: PlaylistTrack, i: int) -> bool {
    &&& t.id == i
    &&& t.name@ == "Track "@ + decimal(i + 1)
    &&& t.color@ == default_track_color(i)
    &&& t.clips@.len() == 0
    &&& !t.muted
    &&& !t.solo
    &&& t.height == DEFAULT_TRACK_HEIGHT
    &&& t.index == i
}

fn channel_name(i: usize) -> (r: &'static str)
    ensures
        r@ == default_channel_name(i as int),
{
    if i == 0 { "Kick" }
    else if i == 1 { "Snare" }
    else if i == 2 { "HiHat" }
    else if i == 3 { "Clap" }
    else if i == 4 { "Bass" }
    else if i == 5 { "Lead" }
    else if i == 6 { "Pad" }
    else { "FX" }
}

fn channel_color(i: usize) -> (r: &'static str)
    ensures
        r@ == default_channel_color(i as int),
{
    if i == 0 { "#ef4444" }
    else if i == 1 { "#f97316" }
    else if i == 2 { "#fbbf24" }
    else if i == 3 { "#4ade80" }
    else if i == 4 { "#3b82f6" }
    else if i == 5 { "#a855f7" }
    else if i == 6 { "#ec4899" }
    else { "#22d3ee" }
}

fn track_color(i: usize) -> (r: &'static str)
    ensures
        r@ == default_track_color(i as int),
{
    if i == 0 { "#3b82f6" }
    else if i == 1 { "#ef4444" }
    else if i == 2 { "#4ade80" }
    else if i == 3 { "#fbbf24" }
    else if i == 4 { "#a855f7" }
    else if i == 5 { "#f97316" }
    else if i == 6 { "#22d3ee" }
    else { "#ec4899" }
}

/// Whether every pattern id leaves room for a successor.
pub open spec fn ids_below_max(ids: Set<PatternId>) -> bool {
    forall|k: PatternId| ids.contains(k) ==> k < usize::MAX
}

impl Project {
    /// A project as `new` builds it, with the given identity.
    pub open spec fn fresh(self, id: ProjectId, name: Seq<char>) -> bool {
        &&& self.fresh_but_content(id, name)
        &&& self.patterns@ == Map::<PatternId, Pattern>::empty()
        &&& self.selected_pattern_id is None
        &&& self.channels@ == Seq::<Channel>::empty()
        &&& self.playlist_tracks@ == Seq::<PlaylistTrack>::empty()
    }

    /// Every field but the content (patterns, selection, channels, tracks)
    /// is as `new` builds it.
    pub open spec fn fresh_but_content(self, id: ProjectId, name: Seq<char>) -> bool {
        &&& self.id == id
        &&& self.name@ == name
        &&& self.current_pattern_id == 0
        &&& self.playback_mode == PlaybackMode::Pattern
        &&& self.bpm.bits == DEFAULT_BPM_BITS
        &&& self.time_sig_num == 4
        &&& self.time_sig_denom == 4
        &&& self.ticks_per_beat == DEFAULT_TICKS_PER_BEAT
        &&& self.file_path is None
        &&& self.dirty
        &&& self.version == PROJECT_VERSION
    }

    /// Create a new empty project: 120 BPM, 4/4, 960 ticks per beat.
    pub fn new(id: ProjectId, name: &str) -> (r: Project)
        ensures
            r.fresh(id, name@),
    {
        Project {
            id,
            name: String::from_str(name),
            patterns: HashMap::new(),
            selected_pattern_id: None,
            current_pattern_id: 0,
            channels: Vec::new(),
            playlist_tracks: Vec::new(),
            playback_mode: PlaybackMode::Pattern,
            bpm: Float64 { bits: DEFAULT_BPM_BITS },
            time_sig_num: 4,
            time_sig_denom: 4,
            ticks_per_beat: DEFAULT_TICKS_PER_BEAT,
            file_path: None,
            dirty: true,
            version: PROJECT_VERSION,
        }
    }

    /// Create a project with default content: one pattern (id 0, selected),
    /// eight synthesizer channels and eight playlist tracks.
    pub fn with_defaults(id: ProjectId, name: &str) -> (r: Project)
        ensures
            r.selected_pattern_id == Some(0usize),
            r.fresh_but_content(id, name@),
            r.patterns@.dom() == set![0usize],
            r.patterns@[0].fresh(0, "Pattern 1"@, "#3b82f6"@),
            r.channels@.len() == DEFAULT_LANES,
            forall|i: int| 0 <= i < DEFAULT_LANES ==> default_channel(#[trigger] r.channels@[i], i),
            r.playlist_tracks@.len() == DEFAULT_LANES,
            forall|i: int| 0 <= i < DEFAULT_LANES ==> default_track(#[trigger] r.playlist_tracks@[i], i),
    {
        let mut project = Self::new(id, name);
        let pattern = Pattern::new(0, "Pattern 1", "#3b82f6");
        project.patterns.insert(0, pattern);
        project.selected_pattern_id = Some(0);
        let mut i: usize = 0;
        while i < DEFAULT_LANES
            invariant
                i <= DEFAULT_LANES,
                project.fresh_but_content(id, name@),
                project.patterns@.dom() == set![0usize],
                project.patterns@[0].fresh(0, "Pattern 1"@, "#3b82f6"@),
                project.selected_pattern_id == Some(0usize),
                project.channels@.len() == i,
                forall|j: int| 0 <= j < i ==> default_channel(#[trigger] project.channels@[j], j),
                project.playlist_tracks@.len() == i,
                forall|j: int| 0 <= j < i ==> default_track(#[trigger] project.playlist_tracks@[j], j),
            decreases DEFAULT_LANES - i,
        {
            project.channels.push(Channel::new_synth(i, channel_name(i), channel_color(i)));
            let mut track_name = String::from_str("Track ");
            push_decimal(&mut track_name, (i + 1) as i32);
            project.playlist_tracks.push(PlaylistTrack::new(i, track_name.as_str(), track_color(i)));
            i = i + 1;
        }
        assert(project.patterns@.dom() =~= set![0usize]);
        project
    }

    // === Pattern Operations ===

    /// Get a pattern by ID.
    pub fn get_pattern(&self, id: PatternId) -> (r: Option<&Pattern>)
        ensures
            r == (match self.patterns@.get(id) {
                Some(p) => Some(&p),
                None => None,
            }),
    {
        self.patterns.get(&id)
    }

    /// Get a mutable pattern by ID.
    pub fn get_pattern_mut(&mut self, id: PatternId) -> (r: Option<&mut Pattern>)
        ensures
            old(self).patterns@.contains_key(id) ==> r is Some && *r.unwrap() == old(self).patterns@[id]
                && *final(self) == (Project { patterns: final(self).patterns, ..*old(self) })
                && final(self).patterns@ == old(self).patterns@.insert(id, *final(r.unwrap())),
            !old(self).patterns@.contains_key(id) ==> r is None
                && *final(self) == (Project { patterns: final(self).patterns, ..*old(self) })
                && final(self).patterns@ == old(self).patterns@,
    {
        match self.patterns.entry(id) {
            Entry::Occupied(e) => Some(e.into_mut()),
            Entry::Vacant(_) => None,
        }
    }

    /// Get the next available pattern ID: one past the largest in use.
    fn next_pattern_id(&self) -> (r: PatternId)
        requires
            ids_below_max(self.patterns@.dom()),
        ensures
            is_next_id(self.patterns@.dom(), r as int),
    {
        let mut next: usize = 0;
        let ghost ids = self.patterns@.dom();
        proof {
            lemma_scan_bounded(ids);
            lemma_scan_next_id(ids);
        }
        for k in it: self.patterns.keys()
            invariant
                ids == self.patterns@.dom(),
                ids_below_max(ids),
                scan_bounded(ids),
                scan_gives_next_id(ids),
                it.seq().unref().to_set() == ids,
                forall|j: int| 0 <= j < it.seq().len() ==> *#[trigger] it.seq()[j] < usize::MAX,
                forall|j: int| 0 <= j < it.index() ==> *#[trigger] it.seq()[j] < next,
                next == 0 || (exists|j: int| 0 <= j < it.index() && *#[trigger] it.seq()[j] == next - 1),
                it.index() == 0 <==> next == 0,
                it.index() == it.seq().len() ==> is_next_id(ids, next as int),
        {
            if *k >= next {
                next = *k + 1;
            }
        }
        next
    }

    /// Create a new pattern under the next available id; returns that id.
    pub fn create_pattern(&mut self, name: &str, color: &str) -> (r: PatternId)
        requires
            ids_below_max(old(self).patterns@.dom()),
        ensures
            is_next_id(old(self).patterns@.dom(), r as int),
            !old(self).patterns@.contains_key(r),
            final(self).patterns@.contains_key(r),
            final(self).patterns@[r].fresh(r, name@, color@),
            final(self).patterns@ == old(self).patterns@.insert(r, final(self).patterns@[r]),
            *final(self) == (Project { patterns: final(self).patterns, dirty: true, ..*old(self) }),
    {
        let id = self.next_pattern_id();
        self.patterns.insert(id, Pattern::new(id, name, color));
        self.mark_dirty();
        id
    }

    /// Delete a pattern; returns it when it existed.
    pub fn delete_pattern(&mut self, id: PatternId) -> (r: Option<Pattern>)
        ensures
            r == old(self).patterns@.get(id),
            final(self).patterns@ == old(self).patterns@.remove(id),
            *final(self) == (Project {
                patterns: final(self).patterns,
                dirty: old(self).dirty || r is Some,
                ..*old(self)
            }),
    {
        let removed = self.patterns.remove(&id);
        if removed.is_some() {
            self.mark_dirty();
        }
        removed
    }

    /// Duplicate a pattern under the next available id, named after the
    /// original with " Copy" appended; returns the new id.
    pub fn duplicate_pattern(&mut self, id: PatternId) -> (r: Option<PatternId>)
        requires
            old(self).patterns@.contains_key(id) ==> ids_below_max(old(self).patterns@.dom()),
        ensures
            !old(self).patterns@.contains_key(id) ==> r is None && *final(self) == *old(self),
            old(self).patterns@.contains_key(id) ==> (r matches Some(new_id) && {
                let original = old(self).patterns@[id];
                let copy = final(self).patterns@[new_id];
                &&& is_next_id(old(self).patterns@.dom(), new_id as int)
                &&& !old(self).patterns@.contains_key(new_id)
                &&& final(self).patterns@ == old(self).patterns@.insert(new_id, copy)
                &&& copy == (Pattern { id: new_id, name: copy.name, color: copy.color, notes: copy.notes, step_data: copy.step_data, ..original })
                &&& copy.name@ == original.name@ + " Copy"@
                &&& copy.color@ == original.color@
                &&& copy.notes@ == original.notes@
                &&& copy.steps() == original.steps()
                &&& *final(self) == (Project { patterns: final(self).patterns, dirty: true, ..*old(self) })
            }),
    {
        let original = match self.patterns.get(&id) {
            Some(p) => p,
            None => return None,
        };
        let new_id = self.next_pattern_id();
        let mut name = original.name.clone();
        name.append(" Copy");
        let copy = original.copy_as(new_id, name);
        self.patterns.insert(new_id, copy);
        self.mark_dirty();
        Some(new_id)
    }

    /// Get the currently selected pattern.
    pub fn get_selected_pattern(&self) -> (r: Option<&Pattern>)
        ensures
            r == (match self.selected_pattern_id {
                Some(id) => match self.patterns@.get(id) {
                    Some(p) => Some(&p),
                    None => None,
                },
                None => None,
            }),
    {
        match self.selected_pattern_id {
            Some(id) => self.patterns.get(&id),
            None => None,
        }
    }

    /// Get the current pattern (for pattern mode playback).
    pub fn get_current_pattern(&self) -> (r: Option<&Pattern>)
        ensures
            r == (match self.patterns@.get(self.current_pattern_id) {
                Some(p) => Some(&p),
                None => None,
            }),
    {
        self.patterns.get(&self.current_pattern_id)
    }

    /// Make `id` the current pattern, when such a pattern exists.
    pub fn set_current_pattern(&mut self, id: PatternId)
        ensures
            *final(self) == (Project {
                current_pattern_id: if old(self).patterns@.contains_key(id) { id } else { old(self).current_pattern_id },
                ..*old(self)
            }),
    {
        if self.patterns.contains_key(&id) {
            self.current_pattern_id = id;
        }
    }

    // === Channel Operations ===

    /// Get a channel by its position.
    pub fn get_channel(&self, id: ChannelId) -> (r: Option<&Channel>)
        ensures
            r == (if id < self.channels@.len() { Some(&self.channels@[id as int]) } else { None }),
    {
        if id < self.channels.len() {
            Some(&self.channels[id])
        } else {
            None
        }
    }

    /// Get a mutable channel by its position.
    pub fn get_channel_mut(&mut self, id: ChannelId) -> (r: Option<&mut Channel>)
        ensures
            id < old(self).channels@.len() ==> r is Some && *r.unwrap() == old(self).channels@[id as int]
                && final(self).channels@ == old(self).channels@.update(id as int, *final(r.unwrap()))
                && *final(self) == (Project { channels: final(self).channels, ..*old(self) }),
            id >= old(self).channels@.len() ==> r is None && *final(self) == *old(self),
    {
        if id < self.channels.len() {
            Some(&mut self.channels[id])
        } else {
            None
        }
    }

    /// Add a channel at the end of the rack; its id becomes its position.
    pub fn add_channel(&mut self, channel: Channel) -> (r: ChannelId)
        ensures
            r == old(self).channels@.len(),
            final(self).channels@ == old(self).channels@.push(Channel { id: r, ..channel }),
            *final(self) == (Project { channels: final(self).channels, dirty: true, ..*old(self) }),
    {
        let id = self.channels.len();
        let mut channel = channel;
        channel.id = id;
        self.channels.push(channel);
        self.mark_dirty();
        id
    }

    /// Remove the channel at position `id`.
    pub fn remove_channel(&mut self, id: ChannelId) -> (r: Option<Channel>)
        ensures
            id < old(self).channels@.len() ==> r == Some(old(self).channels@[id as int])
                && final(self).channels@ == old(self).channels@.remove(id as int)
                && *final(self) == (Project { channels: final(self).channels, dirty: true, ..*old(self) }),
            id >= old(self).channels@.len() ==> r is None && *final(self) == *old(self),
    {
        if id < self.channels.len() {
            self.mark_dirty();
            Some(self.channels.remove(id))
        } else {
            None
        }
    }

    /// Whether any channel is soloed.
    pub fn any_solo_active(&self) -> (r: bool)
        ensures
            r == exists|i: int| 0 <= i < self.channels@.len() && #[trigger] self.channels@[i].solo,
    {
        let mut i: usize = 0;
        while i < self.channels.len()
            invariant
                i <= self.channels@.len(),
                forall|j: int| 0 <= j < i ==> !#[trigger] self.channels@[j].solo,
            decreases self.channels.len() - i,
        {
            if self.channels[i].solo {
                return true;
            }
            i = i + 1;
        }
        false
    }

    // === Playlist Operations ===

    /// Whether any playlist track is soloed (which silences every track
    /// that is not, when the arrangement is played).
    pub fn any_track_solo(&self) -> (r: bool)
        ensures
            r == exists|i: int| 0 <= i < self.playlist_tracks@.len() && #[trigger] self.playlist_tracks@[i].solo,
    {
        let mut i: usize = 0;
        while i < self.playlist_tracks.len()
            invariant
                i <= self.playlist_tracks@.len(),
                forall|j: int| 0 <= j < i ==> !#[trigger] self.playlist_tracks@[j].solo,
            decreases self.playlist_tracks.len() - i,
        {
            if self.playlist_tracks[i].solo {
                return true;
            }
            i = i + 1;
        }
        false
    }

    /// Get a track by its position.
    pub fn get_track(&self, id: TrackId) -> (r: Option<&PlaylistTrack>)
        ensures
            r == (if id < self.playlist_tracks@.len() { Some(&self.playlist_tracks@[id as int]) } else { None }),
    {
        if id < self.playlist_tracks.len() {
            Some(&self.playlist_tracks[id])
        } else {
            None
        }
    }

    /// Get a mutable track by its position.
    pub fn get_track_mut(&mut self, id: TrackId) -> (r: Option<&mut PlaylistTrack>)
        ensures
            id < old(self).playlist_tracks@.len() ==> r is Some && *r.unwrap() == old(self).playlist_tracks@[id as int]
                && final(self).playlist_tracks@ == old(self).playlist_tracks@.update(id as int, *final(r.unwrap()))
                && *final(self) == (Project { playlist_tracks: final(self).playlist_tracks, ..*old(self) }),
            id >= old(self).playlist_tracks@.len() ==> r is None && *final(self) == *old(self),
    {
        if id < self.playlist_tracks.len() {
            Some(&mut self.playlist_tracks[id])
        } else {
            None
        }
    }

    /// Add a track at the end of the playlist; its id and index become its position.
    pub fn add_track(&mut self, track: PlaylistTrack) -> (r: TrackId)
        ensures
            r == old(self).playlist_tracks@.len(),
            final(self).playlist_tracks@ == old(self).playlist_tracks@.push(PlaylistTrack { id: r, index: r, ..track }),
            *final(self) == (Project { playlist_tracks: final(self).playlist_tracks, dirty: true, ..*old(self) }),
    {
        let id = self.playlist_tracks.len();
        let mut track = track;
        track.id = id;
        track.index = id;
        self.playlist_tracks.push(track);
        self.mark_dirty();
        id
    }

    /// Remove the track at position `id`.
    pub fn remove_track(&mut self, id: TrackId) -> (r: Option<PlaylistTrack>)
        ensures
            id < old(self).playlist_tracks@.len() ==> r == Some(old(self).playlist_tracks@[id as int])
                && final(self).playlist_tracks@ == old(self).playlist_tracks@.remove(id as int)
                && *final(self) == (Project { playlist_tracks: final(self).playlist_tracks, dirty: true, ..*old(self) }),
            id >= old(self).playlist_tracks@.len() ==> r is None && *final(self) == *old(self),
    {
        if id < self.playlist_tracks.len() {
            self.mark_dirty();
            Some(self.playlist_tracks.remove(id))
        } else {
            None
        }
    }

    // === Utility ===

    /// Mark the project as having unsaved changes.
    pub fn mark_dirty(&mut self)
        ensures
            *final(self) == (Project { dirty: true, ..*old(self) }),
    {
        self.dirty = true;
    }

    /// Mark the project as saved, at `path`.
    pub fn mark_saved(&mut self, path: Option<String>)
        ensures
            *final(self) == (Project { dirty: false, file_path: path, ..*old(self) }),
    {
        self.dirty = false;
        self.file_path = path;
    }

    /// Switch between pattern and song playback.
    pub fn toggle_playback_mode(&mut self)
        ensures
            *final(self) == (Project { playback_mode: toggled_mode(old(self).playback_mode), ..*old(self) }),
    {
        self.playback_mode = match self.playback_mode {
            PlaybackMode::Pattern => PlaybackMode::Song,
            PlaybackMode::Song => PlaybackMode::Pattern,
        };
    }
}

/// The other playback mode.
pub open spec fn toggled_mode(mode: PlaybackMode) -> PlaybackMode {
    match mode {
        PlaybackMode::Pattern => PlaybackMode::Song,
        PlaybackMode::Song => PlaybackMode::Pattern,
    }
}

/// The next id is determined by the ids in use.
pub proof fn lemma_next_id_unique(ids: Set<PatternId>, a: PatternId, b: PatternId)
    requires
        is_next_id(ids, a as int),
        is_next_id(ids, b as int),
    ensures
        a == b,
{
    if !ids.is_empty() {
        assert(ids.contains((a - 1) as PatternId));
        assert(ids.contains((b - 1) as PatternId));
    }
}

/// Patterns created one after another get consecutive ids: once the next
/// id is in use, the next id is one past it.
pub proof fn lemma_created_ids_consecutive(ids: Set<PatternId>, first: PatternId, second: PatternId)
    requires
        is_next_id(ids, first as int),
        is_next_id(ids.insert(first), second as int),
    ensures
        second == first + 1,
{
    let after = ids.insert(first);
    assert(after.contains(first));
    assert(after.contains((second - 1) as PatternId));
    assert(first < second);
    let next = (first + 1) as PatternId;
    assert(is_next_id(after, next as int)) by {
        assert(after.contains((next - 1) as PatternId));
        assert forall|k: PatternId| after.contains(k) implies k < first + 1 by {
            if k != first {
                assert(ids.contains(k));
            }
        }
    }
    lemma_next_id_unique(after, next, second);
}

/// Deleting the pattern that `create_pattern` just added gives back the
/// patterns as they were before.
pub proof fn lemma_delete_undoes_create(patterns: Map<PatternId, Pattern>, id: PatternId, created: Pattern)
    requires
        !patterns.contains_key(id),
    ensures
        patterns.insert(id, created).remove(id) == patterns,
{
    assert(patterns.insert(id, created).remove(id) =~= patterns);
}

/// Removing the channel that `add_channel` just appended gives back the
/// channels as they were before.
pub proof fn lemma_remove_channel_undoes_add(channels: Seq<Channel>, channel: Channel)
    requires
        channels.len() <= usize::MAX,
    ensures
        channels.push(Channel { id: channels.len() as ChannelId, ..channel }).remove(channels.len() as int) == channels,
{
    assert(channels.push(Channel { id: channels.len() as ChannelId, ..channel }).remove(channels.len() as int) =~= channels);
}

/// Removing the track that `add_track` just appended gives back the tracks
/// as they were before.
pub proof fn lemma_remove_track_undoes_add(tracks: Seq<PlaylistTrack>, track: PlaylistTrack)
    requires
        tracks.len() <= usize::MAX,
    ensures
        tracks.push(PlaylistTrack { id: tracks.len() as TrackId, index: tracks.len() as usize, ..track }).remove(
            tracks.len() as int,
        ) == tracks,
{
    assert(tracks.push(PlaylistTrack { id: tracks.len() as TrackId, index: tracks.len() as usize, ..track }).remove(
        tracks.len() as int,
    ) =~= tracks);
}

/// Switching the playback mode twice gives back the mode it started from.
pub proof fn lemma_toggle_mode_twice(mode: PlaybackMode)
    ensures
        toggled_mode(toggled_mode(mode)) == mode,
{
}

impl Default for Project {
    fn default() -> (r: Project)
        ensures
            r.selected_pattern_id == Some(0usize),
            r.fresh_but_content(0, "Untitled"@),
            r.patterns@.dom() == set![0usize],
            r.patterns@[0].fresh(0, "Pattern 1"@, "#3b82f6"@),
            r.channels@.len() == DEFAULT_LANES,
            forall|i: int| 0 <= i < DEFAULT_LANES ==> default_channel(#[trigger] r.channels@[i], i),
            r.playlist_tracks@.len() == DEFAULT_LANES,
            forall|i: int| 0 <= i < DEFAULT_LANES ==> default_track(#[trigger] r.playlist_tracks@[i], i),
    {
        Self::with_defaults(0, "Untitled")
    }
}

/// `a` holds what `b` holds: the same fields, patterns, channels and tracks.
pub open spec fn same_project(a: Project, b: Project) -> bool {
    &&& a == (Project { patterns: a.patterns, channels: a.channels, playlist_tracks: a.playlist_tracks, ..b })
    &&& a.patterns@.dom() == b.patterns@.dom()
    &&& forall|id: PatternId| #[trigger] a.patterns@.contains_key(id) ==> same_pattern(a.patterns@[id], b.patterns@[id])
    &&& a.channels@ == b.channels@
    &&& a.playlist_tracks@.len() == b.playlist_tracks@.len()
    &&& forall|i: int| 0 <= i < a.playlist_tracks@.len() ==> same_track(#[trigger] a.playlist_tracks@[i], b.playlist_tracks@[i])
}

/// A copy of the patterns.
fn copy_patterns(patterns: &HashMap<PatternId, Pattern>) -> (r: HashMap<PatternId, Pattern>)
    ensures
        r@.dom() == patterns@.dom(),
        forall|id: PatternId| #[trigger] r@.contains_key(id) ==> same_pattern(r@[id], patterns@[id]),
{
    let mut r: HashMap<PatternId, Pattern> = HashMap::new();
    let ghost dom = patterns@.dom();
    for k in it: patterns.keys()
        invariant
            dom == patterns@.dom(),
            it.seq().unref().to_set() == dom,
            forall|c: PatternId| #[trigger] r@.contains_key(c) ==> patterns@.contains_key(c) && same_pattern(r@[c], patterns@[c]),
            forall|c: PatternId| #[trigger] dom.contains(c) ==> r@.contains_key(c)
                || exists|j: int| it.index() <= j < it.seq().len() && *it.seq()[j] == c,
    {
        match patterns.get(k) {
            Some(pattern) => {
                r.insert(*k, pattern.copy());
            },
            None => {},
        }
    }
    proof {
        assert forall|c: PatternId| patterns@.contains_key(c) implies r@.contains_key(c) by {
            assert(dom.contains(c));
        }
        assert(r@.dom() =~= patterns@.dom());
    }
    r
}

/// A copy of the channels.
fn copy_channels(channels: &Vec<Channel>) -> (r: Vec<Channel>)
    ensures
        r@ == channels@,
{
    let mut r: Vec<Channel> = Vec::new();
    let mut i: usize = 0;
    while i < channels.len()
        invariant
            i <= channels@.len(),
            r@ == channels@.take(i as int),
        decreases channels.len() - i,
    {
        r.push(channels[i].copy());
        i = i + 1;
        assert(r@ =~= channels@.take(i as int));
    }
    assert(channels@.take(channels@.len() as int) =~= channels@);
    r
}

/// A copy of the playlist tracks.
fn copy_tracks(tracks: &Vec<PlaylistTrack>) -> (r: Vec<PlaylistTrack>)
    ensures
        r@.len() == tracks@.len(),
        forall|i: int| 0 <= i < r@.len() ==> same_track(#[trigger] r@[i], tracks@[i]),
{
    let mut r: Vec<PlaylistTrack> = Vec::new();
    let mut i: usize = 0;
    while i < tracks.len()
        invariant
            i <= tracks@.len(),
            r@.len() == i,
            forall|j: int| 0 <= j < i ==> same_track(#[trigger] r@[j], tracks@[j]),
        decreases tracks.len() - i,
    {
        r.push(tracks[i].copy());
        i = i + 1;
    }
    r
}

impl Project {
    /// A copy of the whole project, as the undo history keeps it.
    pub fn snapshot(&self) -> (r: Project)
        ensures
            same_project(r, *self),
    {
        Project {
            name: self.name.clone(),
            patterns: copy_patterns(&self.patterns),
            channels: copy_channels(&self.channels),
            playlist_tracks: copy_tracks(&self.playlist_tracks),
            file_path: copy_optional_text(&self.file_path),
            ..*self
        }
    }
}

} // verus!
