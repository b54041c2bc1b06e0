//! Piano-roll editor: tools and the keyboard lanes.
use vstd::prelude::*;
use vstd::string::*;
use std::collections::BTreeSet;
use crate::Float32;
use crate::note::{note_names, pitch_name, push_note_name};
use crate::text::{digits, push_count, push_decimal};
use crate::ui::playlist::{PianoRollTrackSnapshot, ResizeEdge, TrackKind};

verus! {

/// Number of note rows (lanes) shown in the piano roll.
pub const NOTE_ROWS: usize = 18;

/// MIDI note of the top row of the piano roll.
pub const TOP_MIDI_NOTE: i32 = 79;

/// Editing tools of the piano roll.
#[derive(Clone, Copy, Debug, Eq, PartialEq, Structural)]
pub enum PianoRollTool {
    Select,
    Draw,
    Split,
    Mute,
}

/// Icons of the piano-roll toolbar.
#[derive(Clone, Copy, Debug, Eq, PartialEq, Structural)]
pub enum ToolIcon {
    Select,
    Draw,
    Split,
    Mute,
    GhostNotes,
}

impl PianoRollTool {
    /// Every tool, in toolbar order.
    pub fn all() -> (r: [PianoRollTool; 4])
        ensures
            r@ == seq![PianoRollTool::Select, PianoRollTool::Draw, PianoRollTool::Split, PianoRollTool::Mute],
    {
        let r = [PianoRollTool::Select, PianoRollTool::Draw, PianoRollTool::Split, PianoRollTool::Mute];
        assert(r@ =~= seq![PianoRollTool::Select, PianoRollTool::Draw, PianoRollTool::Split, PianoRollTool::Mute]);
        r
    }

    /// Toolbar label of the tool.
    pub fn label(self) -> (r: &'static str)
        ensures
            r@ == (match self {
                PianoRollTool::Select => "Select"@,
                PianoRollTool::Draw => "Brush"@,
                PianoRollTool::Split => "Split"@,
                PianoRollTool::Mute => "Mute"@,
            }),
    {
        match self {
            PianoRollTool::Select => "Select",
            PianoRollTool::Draw => "Brush",
            PianoRollTool::Split => "Split",
            PianoRollTool::Mute => "Mute",
        }
    }

    /// Toolbar icon of the tool.
    pub fn icon(self) -> (r: ToolIcon)
        ensures
            r == (match self {
                PianoRollTool::Select => ToolIcon::Select,
                PianoRollTool::Draw => ToolIcon::Draw,
                PianoRollTool::Split => ToolIcon::Split,
                PianoRollTool::Mute => ToolIcon::Mute,
            }),
    {
        match self {
            PianoRollTool::Select => ToolIcon::Select,
            PianoRollTool::Draw => ToolIcon::Draw,
            PianoRollTool::Split => ToolIcon::Split,
            PianoRollTool::Mute => ToolIcon::Mute,
        }
    }
}

/// The lane clamped to the rows of the piano roll.
pub fn clamp_lane(lane: i32) -> (r: usize)
    ensures
        r == (if lane < 0 { 0 } else if lane > NOTE_ROWS - 1 { (NOTE_ROWS - 1) as int } else { lane as int }),
{
    if lane < 0 {
        0
    } else if lane > 17 {
        17
    } else {
        lane as usize
    }
}

/// Offset that moves every `i32` to a non-negative value while keeping its
/// residue modulo 12 (a multiple of 12 above 2^31).
const EUCLID_SHIFT: i64 = 2147483652;

/// Name of a (possibly out-of-range) MIDI note: pitch class and octave,
/// with the octave counted down through negative numbers.
pub fn note_label(midi_note: i32) -> (r: String)
    ensures
        r@ == pitch_name(midi_note as int),
{
    let shifted: i64 = midi_note as i64 + EUCLID_SHIFT;
    let index = (shifted % 12) as u8;
    let octave: i64 = shifted / 12 - 178956971 - 1;
    assert(index as int == (midi_note as int) % 12 && octave == (midi_note as int) / 12 - 1) by (nonlinear_arith)
        requires
            shifted == midi_note + 2147483652,
            index as int == shifted % 12,
            octave == shifted / 12 - 178956971 - 1,
            2147483652 == 12 * 178956971,
    ;
    let mut s = String::new();
    push_note_name(&mut s, index);
    push_decimal(&mut s, octave as i32);
    assert(s@ =~= pitch_name(midi_note as int));
    s
}

/// Whether a MIDI note is a black key: its pitch-class name is a sharp.
pub fn is_black_key(midi_note: i32) -> (r: bool)
    ensures
        r == (note_names()[(midi_note as int) % 12].len() == 2),
{
    let shifted: i64 = midi_note as i64 + EUCLID_SHIFT;
    let index = shifted % 12;
    assert(index == (midi_note as int) % 12) by (nonlinear_arith)
        requires
            shifted == midi_note + 2147483652,
            index == shifted % 12,
            2147483652 == 12 * 178956971,
    ;
    index == 1 || index == 3 || index == 6 || index == 8 || index == 10
}

/// What a note drag does.
#[derive(Clone, Copy, Debug, PartialEq, Eq, Structural)]
pub enum NoteDragMode {
    Create { anchor_beat: Float32 },
    Move { beat_offset: Float32, lane_offset: i32, length_beats: Float32 },
    Resize { edge: ResizeEdge, fixed_beat: Float32, edge_offset: Float32 },
}

/// A note drag in progress: the track, the note and what the drag does.
#[derive(Clone, Copy, Debug, PartialEq, Eq, Structural)]
pub struct NoteDrag {
    pub track_index: usize,
    pub note_index: usize,
    pub mode: NoteDragMode,
}

/// Track indices of the tracks of `tracks` other than the track `active`, in order.
pub open spec fn other_track_ids(tracks: Seq<PianoRollTrackSnapshot>, active: usize) -> Seq<usize>
    decreases tracks.len(),
{
    if tracks.len() == 0 {
        Seq::empty()
    } else {
        let rest = other_track_ids(tracks.drop_last(), active);
        if tracks.last().track_index != active {
            rest.push(tracks.last().track_index)
        } else {
            rest
        }
    }
}

/// Track indices of the tracks that can lend ghost notes to the active
/// track: every other track when the active track is a piano-roll track,
/// none otherwise.
pub open spec fn ghost_candidate_ids(active: usize, kind: TrackKind, tracks: Seq<PianoRollTrackSnapshot>) -> Seq<usize> {
    if kind == TrackKind::PianoRoll {
        other_track_ids(tracks, active)
    } else {
        Seq::empty()
    }
}

/// How many entries of `ids` are ghost sources.
pub open spec fn ghost_count_of(ids: Seq<usize>, sources: Set<usize>) -> nat
    decreases ids.len(),
{
    if ids.len() == 0 {
        0
    } else {
        ghost_count_of(ids.drop_last(), sources) + if sources.contains(ids.last()) { 1nat } else { 0nat }
    }
}

/// The ghost sources that remain when only `candidates` may lend ghost notes.
pub open spec fn kept_sources(sources: Set<usize>, candidates: Seq<usize>) -> Set<usize> {
    sources.intersect(candidates.to_set())
}

/// Ghost notes shown and their sources after the ghost button is pressed
/// with `candidates` to choose from: nothing changes without candidates;
/// otherwise the display flips, and turning it on without a source takes
/// the first candidate as the source.
pub open spec fn toggled_ghosts(on: bool, sources: Set<usize>, candidates: Seq<usize>) -> (bool, Set<usize>) {
    if candidates.len() == 0 {
        (on, sources)
    } else if !on && sources.is_empty() {
        (true, sources.insert(candidates[0]))
    } else {
        (!on, sources)
    }
}

/// The piano-roll editor's state: the active tool, whether ghost notes of
/// other tracks are shown and from which tracks, and a note drag in
/// progress. Ghost notes are only ever shown with at least one source.
pub struct PianoRollView {
    active_tool: PianoRollTool,
    ghost_notes_enabled: bool,
    ghost_track_indices: BTreeSet<usize>,
    note_drag: Option<NoteDrag>,
}

impl PianoRollView {
    #[verifier::type_invariant]
    spec fn ghosts_have_sources(self) -> bool {
        self.ghost_notes_enabled ==> !self.ghost_track_indices@.is_empty()
    }

    pub closed spec fn tool_view(self) -> PianoRollTool {
        self.active_tool
    }

    pub closed spec fn ghosts_on(self) -> bool {
        self.ghost_notes_enabled
    }

    pub closed spec fn ghost_sources(self) -> Set<usize> {
        self.ghost_track_indices@
    }

    pub closed spec fn drag_view(self) -> Option<NoteDrag> {
        self.note_drag
    }

    /// The brush tool, ghost notes off and without sources, no drag.
    pub fn new() -> (r: PianoRollView)
        ensures
            r.tool_view() == PianoRollTool::Draw,
            !r.ghosts_on(),
            r.ghost_sources() == Set::<usize>::empty(),
            r.drag_view() == None::<NoteDrag>,
    {
        PianoRollView {
            active_tool: PianoRollTool::Draw,
            ghost_notes_enabled: false,
            ghost_track_indices: BTreeSet::new(),
            note_drag: None,
        }
    }

    /// The active tool.
    pub fn active_tool(&self) -> (r: PianoRollTool)
        ensures
            r == self.tool_view(),
    {
        self.active_tool
    }

    /// Whether ghost notes are shown; they never are without a source.
    pub fn ghost_notes_enabled(&self) -> (r: bool)
        ensures
            r == self.ghosts_on(),
            r ==> !self.ghost_sources().is_empty(),
    {
        proof { use_type_invariant(self); }
        self.ghost_notes_enabled
    }

    /// Whether the track `track_index` lends ghost notes.
    pub fn is_ghost_source(&self, track_index: usize) -> (r: bool)
        ensures
            r == self.ghost_sources().contains(track_index),
    {
        self.ghost_track_indices.contains(&track_index)
    }

    /// The note drag in progress.
    pub fn note_drag(&self) -> (r: Option<NoteDrag>)
        ensures
            r == self.drag_view(),
    {
        self.note_drag
    }

    /// Starts, replaces or ends a note drag.
    pub fn set_note_drag(&mut self, drag: Option<NoteDrag>)
        ensures
            final(self).drag_view() == drag,
            final(self).tool_view() == old(self).tool_view(),
            final(self).ghosts_on() == old(self).ghosts_on(),
            final(self).ghost_sources() == old(self).ghost_sources(),
    {
        proof { use_type_invariant(&*self); }
        self.note_drag = drag;
    }

    /// Brings the editor in line with the tracks on show, as each frame
    /// does: a drag on a track other than the active one ends, only tracks
    /// that can lend ghost notes to the active track stay ghost sources, and
    /// ghost notes go off when no source is left. Returns the track indices
    /// of those candidate tracks, in order.
    pub fn sync_tracks(&mut self, active: &PianoRollTrackSnapshot, tracks: &[PianoRollTrackSnapshot]) -> (candidates: Vec<usize>)
        ensures
            candidates@ == ghost_candidate_ids(active.track_index, active.kind, tracks@),
            final(self).tool_view() == old(self).tool_view(),
            final(self).drag_view() == (match old(self).drag_view() {
                Some(d) => if d.track_index == active.track_index { Some(d) } else { None },
                None => None,
            }),
            final(self).ghost_sources() == kept_sources(old(self).ghost_sources(), candidates@),
            forall|i: usize| #[trigger] final(self).ghost_sources().contains(i) ==> candidates@.contains(i),
            final(self).ghosts_on() == (old(self).ghosts_on() && !final(self).ghost_sources().is_empty()),
    {
        proof { use_type_invariant(&*self); }
        let drag = match self.note_drag {
            Some(d) => if d.track_index == active.track_index { Some(d) } else { None },
            None => None,
        };
        let mut candidates: Vec<usize> = Vec::new();
        if active.kind == TrackKind::PianoRoll {
            let mut i: usize = 0;
            while i < tracks.len()
                invariant
                    i <= tracks@.len(),
                    candidates@ == other_track_ids(tracks@.take(i as int), active.track_index),
                decreases tracks.len() - i,
            {
                proof { assert(tracks@.take(i + 1).drop_last() =~= tracks@.take(i as int)); }
                if tracks[i].track_index != active.track_index {
                    candidates.push(tracks[i].track_index);
                }
                i += 1;
            }
            assert(tracks@.take(tracks@.len() as int) =~= tracks@);
        }
        let ghost sources = self.ghost_track_indices@;
        let mut kept: BTreeSet<usize> = BTreeSet::new();
        let mut j: usize = 0;
        while j < candidates.len()
            invariant
                j <= candidates@.len(),
                self.ghost_track_indices@ == sources,
                kept@ == sources.intersect(candidates@.take(j as int).to_set()),
            decreases candidates.len() - j,
        {
            let c = candidates[j];
            if self.ghost_track_indices.contains(&c) {
                kept.insert(c);
            }
            j += 1;
            proof {
                let prev = candidates@.take(j - 1);
                let now = candidates@.take(j as int);
                assert(now =~= prev.push(c));
                assert forall|x: usize| now.contains(x) <==> (prev.contains(x) || x == c) by {
                    if x == c {
                        assert(now[j - 1] == c);
                    }
                    if prev.contains(x) {
                        let k = choose|k: int| 0 <= k < prev.len() && prev[k] == x;
                        assert(now[k] == x);
                    }
                }
                assert(kept@ =~= sources.intersect(now.to_set()));
            }
        }
        assert(candidates@.take(candidates@.len() as int) =~= candidates@);
        let on = self.ghost_notes_enabled && !kept.is_empty();
        *self = PianoRollView {
            active_tool: self.active_tool,
            ghost_notes_enabled: on,
            ghost_track_indices: kept,
            note_drag: drag,
        };
        candidates
    }

    /// The ghost button: with candidates to choose from, ghost notes flip,
    /// and turning them on without a source takes the first candidate.
    pub fn toggle_ghost_notes(&mut self, candidates: &[usize])
        ensures
            (final(self).ghosts_on(), final(self).ghost_sources())
                == toggled_ghosts(old(self).ghosts_on(), old(self).ghost_sources(), candidates@),
            final(self).tool_view() == old(self).tool_view(),
            final(self).drag_view() == old(self).drag_view(),
    {
        proof { use_type_invariant(&*self); }
        if candidates.len() > 0 {
            let on = !self.ghost_notes_enabled;
            if on && self.ghost_track_indices.is_empty() {
                let mut sources = BTreeSet::new();
                std::mem::swap(&mut sources, &mut self.ghost_track_indices);
                sources.insert(candidates[0]);
                self.ghost_track_indices = sources;
            }
            self.ghost_notes_enabled = on;
        }
    }

    /// Selects or deselects the track `track_index` as a ghost source;
    /// ghost notes are then shown exactly when some source is left.
    pub fn set_ghost_source(&mut self, track_index: usize, selected: bool)
        ensures
            final(self).ghost_sources() == (if selected {
                old(self).ghost_sources().insert(track_index)
            } else {
                old(self).ghost_sources().remove(track_index)
            }),
            final(self).ghosts_on() == !final(self).ghost_sources().is_empty(),
            final(self).tool_view() == old(self).tool_view(),
            final(self).drag_view() == old(self).drag_view(),
    {
        proof { use_type_invariant(&*self); }
        self.ghost_notes_enabled = false;
        let mut sources = BTreeSet::new();
        std::mem::swap(&mut sources, &mut self.ghost_track_indices);
        if selected {
            sources.insert(track_index);
        } else {
            sources.remove(&track_index);
        }
        self.ghost_track_indices = sources;
        self.ghost_notes_enabled = !self.ghost_track_indices.is_empty();
    }

    /// How many of the candidates are ghost sources.
    pub fn ghost_count(&self, candidates: &[usize]) -> (r: usize)
        ensures
            r == ghost_count_of(candidates@, self.ghost_sources()),
    {
        let mut count: usize = 0;
        let mut i: usize = 0;
        while i < candidates.len()
            invariant
                i <= candidates@.len(),
                count <= i,
                count == ghost_count_of(candidates@.take(i as int), self.ghost_sources()),
            decreases candidates.len() - i,
        {
            proof { assert(candidates@.take(i + 1).drop_last() =~= candidates@.take(i as int)); }
            if self.ghost_track_indices.contains(&candidates[i]) {
                count += 1;
            }
            i += 1;
        }
        assert(candidates@.take(candidates@.len() as int) =~= candidates@);
        count
    }

    /// Whether ghost notes are on show: switched on, with a source among the candidates.
    pub fn ghost_active(&self, candidates: &[usize]) -> (r: bool)
        ensures
            r == (self.ghosts_on() && ghost_count_of(candidates@, self.ghost_sources()) > 0),
    {
        let count = self.ghost_count(candidates);
        self.ghost_notes_enabled && count > 0
    }

    /// Label of the ghost button: "Ghost" and the number of sources among
    /// the candidates when there is one.
    pub fn ghost_label(&self, candidates: &[usize]) -> (r: String)
        ensures
            r@ == (if ghost_count_of(candidates@, self.ghost_sources()) > 0 {
                "Ghost "@ + digits(ghost_count_of(candidates@, self.ghost_sources()))
            } else {
                "Ghost"@
            }),
    {
        let count = self.ghost_count(candidates);
        if count > 0 {
            let mut label = String::from_str("Ghost ");
            push_count(&mut label, count);
            label
        } else {
            String::from_str("Ghost")
        }
    }

    /// Status chip of the ghost display.
    pub fn ghost_status_label(&self, candidates: &[usize]) -> (r: &'static str)
        ensures
            r@ == (if self.ghosts_on() && ghost_count_of(candidates@, self.ghost_sources()) > 0 {
                "Ghosts On"@
            } else {
                "Ghosts Off"@
            }),
    {
        if self.ghost_active(candidates) {
            "Ghosts On"
        } else {
            "Ghosts Off"
        }
    }

    /// Picks a tool; a drag in progress ends.
    pub fn select_tool(&mut self, tool: PianoRollTool)
        ensures
            final(self).tool_view() == tool,
            final(self).drag_view() == None::<NoteDrag>,
            final(self).ghosts_on() == old(self).ghosts_on(),
            final(self).ghost_sources() == old(self).ghost_sources(),
    {
        proof { use_type_invariant(&*self); }
        self.active_tool = tool;
        self.note_drag = None;
    }
}

impl Default for PianoRollView {
    fn default() -> (r: PianoRollView)
        ensures
            r.tool_view() == PianoRollTool::Draw,
            !r.ghosts_on(),
            r.ghost_sources() == Set::<usize>::empty(),
            r.drag_view() == None::<NoteDrag>,
    {
        PianoRollView::new()
    }
}

/// Turning ghost notes on and off again with the same candidates leaves
/// them shown exactly when they were before, drops no source, and changes
/// no source when one was already selected.
pub proof fn lemma_ghost_toggle_twice(on: bool, sources: Set<usize>, candidates: Seq<usize>)
    requires
        on ==> !sources.is_empty(),
    ensures
        ({
            let once = toggled_ghosts(on, sources, candidates);
            let twice = toggled_ghosts(once.0, once.1, candidates);
            &&& twice.0 == on
            &&& sources.subset_of(twice.1)
            &&& !sources.is_empty() ==> twice.1 == sources
        }),
{
}

/// Keeping only the candidates' ghost sources a second time changes nothing.
pub proof fn lemma_kept_sources_idempotent(sources: Set<usize>, candidates: Seq<usize>)
    ensures
        kept_sources(kept_sources(sources, candidates), candidates) == kept_sources(sources, candidates),
{
    assert(kept_sources(kept_sources(sources, candidates), candidates) =~= kept_sources(sources, candidates));
}

} // verus!
