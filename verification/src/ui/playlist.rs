//! Playlist (arrangement) editor: its tools, its lanes and clips, and the
//! editing of clips and selection.
use vstd::prelude::*;
use vstd::string::*;
use crate::Float32;
use crate::playlist::{first_position, lemma_first_position_unique};
use crate::project::is_next_id;

verus! {

/// What a playlist lane holds.
#[derive(Clone, Copy, Debug, Eq, PartialEq, Structural)]
pub enum TrackKind {
    PianoRoll,
    Audio,
}

/// Editing tools of the playlist.
#[derive(Clone, Copy, Debug, Eq, PartialEq, Structural)]
pub enum PlaylistTool {
    Select,
    Draw,
    Split,
    Duplicate,
    Mute,
}

/// Icons of the playlist toolbar.
#[derive(Clone, Copy, Debug, Eq, PartialEq, Structural)]
pub enum ToolIcon {
    Select,
    Draw,
    Split,
    Duplicate,
    Mute,
}

impl PlaylistTool {
    /// Every tool, in toolbar order.
    pub fn all() -> (r: [PlaylistTool; 5])
        ensures
            r@ == seq![
                PlaylistTool::Select,
                PlaylistTool::Draw,
                PlaylistTool::Split,
                PlaylistTool::Duplicate,
                PlaylistTool::Mute,
            ],
    {
        let r = [PlaylistTool::Select, PlaylistTool::Draw, PlaylistTool::Split, PlaylistTool::Duplicate, PlaylistTool::Mute];
        assert(r@ =~= seq![
            PlaylistTool::Select,
            PlaylistTool::Draw,
            PlaylistTool::Split,
            PlaylistTool::Duplicate,
            PlaylistTool::Mute,
        ]);
        r
    }

    /// Toolbar label of the tool.
    pub fn label(self) -> (r: &'static str)
        ensures
            r@ == (match self {
                PlaylistTool::Select => "Select"@,
                PlaylistTool::Draw => "Draw"@,
                PlaylistTool::Split => "Split"@,
                PlaylistTool::Duplicate => "Duplicate"@,
                PlaylistTool::Mute => "Mute"@,
            }),
    {
        match self {
            PlaylistTool::Select => "Select",
            PlaylistTool::Draw => "Draw",
            PlaylistTool::Split => "Split",
            PlaylistTool::Duplicate => "Duplicate",
            PlaylistTool::Mute => "Mute",
        }
    }

    /// Toolbar icon of the tool.
    pub fn icon(self) -> (r: ToolIcon)
        ensures
            r == (match self {
                PlaylistTool::Select => ToolIcon::Select,
                PlaylistTool::Draw => ToolIcon::Draw,
                PlaylistTool::Split => ToolIcon::Split,
                PlaylistTool::Duplicate => ToolIcon::Duplicate,
                PlaylistTool::Mute => ToolIcon::Mute,
            }),
    {
        match self {
            PlaylistTool::Select => ToolIcon::Select,
            PlaylistTool::Draw => ToolIcon::Draw,
            PlaylistTool::Split => ToolIcon::Split,
            PlaylistTool::Duplicate => ToolIcon::Duplicate,
            PlaylistTool::Mute => ToolIcon::Mute,
        }
    }
}

} // verus!

verus! {

/// Smallest clip length, and the snap grid, in beats: 0.25 (binary32 bits).
pub const MIN_CLIP_LENGTH_BITS: u32 = 0x3E80_0000;

/// Bars visible in a fresh playlist viewport: 8.0 (binary32 bits).
pub const DEFAULT_VISIBLE_BARS_BITS: u32 = 0x4100_0000;

/// A note of a piano-roll lane.
#[derive(Clone, Copy, Debug, PartialEq, Eq, Structural)]
pub struct PianoRollNoteData {
    pub lane: usize,
    pub start_beat: Float32,
    pub length_beats: Float32,
    pub velocity: Float32,
}

/// What the piano roll shows of a playlist track.
#[derive(Clone, Debug)]
pub struct PianoRollTrackSnapshot {
    pub track_index: usize,
    pub name: String,
    pub lane_label: String,
    pub kind: TrackKind,
    pub notes: Vec<PianoRollNoteData>,
}

/// The selected clip: its track and its id.
#[derive(Clone, Copy, Debug, PartialEq, Eq, Structural)]
pub struct ClipSelection {
    pub track_index: usize,
    pub clip_id: usize,
}

/// Which edge of a clip a resize drags.
#[derive(Clone, Copy, Debug, PartialEq, Eq, Structural)]
pub enum ResizeEdge {
    Start,
    End,
}

/// What a clip drag does.
#[derive(Clone, Copy, Debug, PartialEq, Eq, Structural)]
pub enum ClipDragMode {
    Create { anchor_beat: Float32 },
    Move { beat_offset: Float32, length_beats: Float32 },
    Resize { edge: ResizeEdge, fixed_beat: Float32, edge_offset: Float32 },
}

/// A clip drag in progress.
#[derive(Clone, Copy, Debug, PartialEq, Eq, Structural)]
pub struct ClipDrag {
    pub track_index: usize,
    pub clip_id: usize,
    pub mode: ClipDragMode,
}

/// The visible part of the arrangement: its width in bars and its scroll.
#[derive(Clone, Copy, Debug, PartialEq, Eq, Structural)]
pub struct PlaylistViewport {
    pub visible_bars: Float32,
    pub vertical_scroll: Float32,
}

impl PlaylistViewport {
    /// Eight bars wide, scrolled to the top.
    pub fn new() -> (r: PlaylistViewport)
        ensures
            r == (PlaylistViewport {
                visible_bars: Float32 { bits: DEFAULT_VISIBLE_BARS_BITS },
                vertical_scroll: Float32 { bits: 0 },
            }),
    {
        PlaylistViewport { visible_bars: Float32 { bits: DEFAULT_VISIBLE_BARS_BITS }, vertical_scroll: Float32 { bits: 0 } }
    }
}

/// A clip of the arrangement.
#[derive(Clone, Debug)]
pub struct PlaylistClipData {
    pub id: usize,
    pub label: String,
    pub start_beat: Float32,
    pub length_beats: Float32,
    pub muted: bool,
}

/// A lane of the arrangement: its clips and, for a piano-roll lane, its notes.
#[derive(Clone, Debug)]
pub struct PlaylistTrack {
    pub name: String,
    pub lane_label: String,
    pub kind: TrackKind,
    pub notes: Vec<PianoRollNoteData>,
    pub clips: Vec<PlaylistClipData>,
}

/// A clip by its id, label, position, length and mute state.
pub open spec fn clip_view(c: PlaylistClipData) -> (usize, Seq<char>, Float32, Float32, bool) {
    (c.id, c.label@, c.start_beat, c.length_beats, c.muted)
}

/// A lane by its name, label, kind, notes and clips.
pub open spec fn lane_view(t: PlaylistTrack) -> (Seq<char>, Seq<char>, TrackKind, Seq<PianoRollNoteData>, Seq<(usize, Seq<char>, Float32, Float32, bool)>) {
    (t.name@, t.lane_label@, t.kind, t.notes@, t.clips@.map_values(|c: PlaylistClipData| clip_view(c)))
}

/// `s` is the piano-roll snapshot of lane `t`, the lane at `index`.
pub open spec fn is_snapshot_of(s: PianoRollTrackSnapshot, t: PlaylistTrack, index: int) -> bool {
    &&& s.track_index == index
    &&& s.name@ == t.name@
    &&& s.lane_label@ == t.lane_label@
    &&& s.kind == t.kind
    &&& s.notes@ == t.notes@
}

/// The label a new clip of a lane gets: "{name} Pattern" on a piano-roll
/// lane, "{name} Audio" on an audio lane.
pub open spec fn default_label(t: PlaylistTrack) -> Seq<char> {
    match t.kind {
        TrackKind::PianoRoll => t.name@ + " Pattern"@,
        TrackKind::Audio => t.name@ + " Audio"@,
    }
}

/// The ids of all clips of all lanes.
pub open spec fn clip_id_set(tracks: Seq<PlaylistTrack>) -> Set<usize> {
    Set::new(|id: usize| exists|t: int, c: int| 0 <= t < tracks.len() && 0 <= c < tracks[t].clips@.len()
        && #[trigger] tracks[t].clips@[c].id == id)
}

/// Every clip id is below `next`.
pub open spec fn ids_below(tracks: Seq<PlaylistTrack>, next: usize) -> bool {
    forall|t: int, c: int| 0 <= t < tracks.len() && 0 <= c < tracks[t].clips@.len() ==> #[trigger] tracks[t].clips@[c].id < next
}

/// Position of the first clip of `clips` with id `clip_id`.
pub open spec fn clip_position(clips: Seq<PlaylistClipData>, clip_id: usize) -> Option<int> {
    first_position(clips.map_values(|c: PlaylistClipData| c.id), clip_id)
}

fn copy_notes(notes: &Vec<PianoRollNoteData>) -> (r: Vec<PianoRollNoteData>)
    ensures
        r@ == notes@,
{
    let mut r: Vec<PianoRollNoteData> = Vec::new();
    let mut i: usize = 0;
    while i < notes.len()
        invariant
            i <= notes@.len(),
            r@ == notes@.subrange(0, i as int),
        decreases notes.len() - i,
    {
        r.push(notes[i]);
        i = i + 1;
        assert(r@ =~= notes@.subrange(0, i as int));
    }
    assert(r@ =~= notes@);
    r
}

fn find_clip_data(clips: &Vec<PlaylistClipData>, clip_id: usize) -> (r: Option<usize>)
    ensures
        match clip_position(clips@, clip_id) {
            Some(i) => r matches Some(k) && k as int == i && 0 <= i < clips@.len(),
            None => r is None,
        },
{
    let ghost ids = clips@.map_values(|c: PlaylistClipData| c.id);
    let mut i: usize = 0;
    while i < clips.len()
        invariant
            ids == clips@.map_values(|c: PlaylistClipData| c.id),
            i <= clips@.len(),
            forall|j: int| 0 <= j < i ==> clips@[j].id != clip_id,
        decreases clips.len() - i,
    {
        if clips[i].id == clip_id {
            proof { lemma_first_position_unique(ids, clip_id, Some(i)); }
            return Some(i);
        }
        i = i + 1;
    }
    proof {
        assert forall|j: int| 0 <= j < ids.len() implies ids[j] != clip_id by {}
        lemma_first_position_unique(ids, clip_id, None);
    }
    None
}

impl PlaylistTrack {
    /// A piano-roll lane.
    pub fn piano_roll(name: &str, lane_label: &str, notes: Vec<PianoRollNoteData>, clips: Vec<PlaylistClipData>) -> (r: PlaylistTrack)
        ensures
            r.name@ == name@,
            r.lane_label@ == lane_label@,
            r.kind == TrackKind::PianoRoll,
            r.notes == notes,
            r.clips == clips,
    {
        PlaylistTrack {
            name: String::from_str(name),
            lane_label: String::from_str(lane_label),
            kind: TrackKind::PianoRoll,
            notes,
            clips,
        }
    }

    /// An audio lane (it has no notes).
    pub fn audio(name: &str, lane_label: &str, clips: Vec<PlaylistClipData>) -> (r: PlaylistTrack)
        ensures
            r.name@ == name@,
            r.lane_label@ == lane_label@,
            r.kind == TrackKind::Audio,
            r.notes@ == Seq::<PianoRollNoteData>::empty(),
            r.clips == clips,
    {
        PlaylistTrack {
            name: String::from_str(name),
            lane_label: String::from_str(lane_label),
            kind: TrackKind::Audio,
            notes: Vec::new(),
            clips,
        }
    }

    /// What the piano roll shows of this lane, the lane at `track_index`.
    pub fn snapshot(&self, track_index: usize) -> (r: PianoRollTrackSnapshot)
        ensures
            is_snapshot_of(r, *self, track_index as int),
    {
        PianoRollTrackSnapshot {
            track_index,
            name: self.name.clone(),
            lane_label: self.lane_label.clone(),
            kind: self.kind,
            notes: copy_notes(&self.notes),
        }
    }
}

/// The label a new clip of `track` gets.
pub fn default_clip_label(track: &PlaylistTrack) -> (r: String)
    ensures
        r@ == default_label(*track),
{
    let mut label = track.name.clone();
    match track.kind {
        TrackKind::PianoRoll => label.append(" Pattern"),
        TrackKind::Audio => label.append(" Audio"),
    }
    label
}

/// `after` is `before` with a new clip added at the end of lane
/// `track_index`: id `id`, the lane's default label, starting at
/// `start_beat`, the shortest length, unmuted.
pub open spec fn clip_added(before: Seq<PlaylistTrack>, after: Seq<PlaylistTrack>, track_index: usize, id: usize, start_beat: Float32) -> bool {
    let t = before[track_index as int];
    let u = after[track_index as int];
    &&& after == before.update(track_index as int, PlaylistTrack { clips: u.clips, ..t })
    &&& u.clips@.len() == t.clips@.len() + 1
    &&& u.clips@.drop_last() == t.clips@
    &&& clip_view(u.clips@.last()) == (id, default_label(t), start_beat, Float32 { bits: MIN_CLIP_LENGTH_BITS }, false)
}

/// `after` is `before` with the first clip with id `clip_id` on lane
/// `track_index` muted or unmuted; unchanged when there is no such clip.
pub open spec fn mute_toggled(before: Seq<PlaylistTrack>, after: Seq<PlaylistTrack>, track_index: usize, clip_id: usize) -> bool {
    if track_index < before.len() && clip_position(before[track_index as int].clips@, clip_id) is Some {
        let t = before[track_index as int];
        let i = clip_position(t.clips@, clip_id).unwrap();
        let u = after[track_index as int];
        &&& after == before.update(track_index as int, PlaylistTrack { clips: u.clips, ..t })
        &&& u.clips@ == t.clips@.update(i, PlaylistClipData { muted: !t.clips@[i].muted, ..t.clips@[i] })
    } else {
        after == before
    }
}

/// A clip under the pointer: its lane, its id, and the edge grabbed, if any.
#[derive(Clone, Copy, Debug, PartialEq, Eq, Structural)]
pub struct ClipHit {
    pub track_index: usize,
    pub clip_id: usize,
    pub edge: Option<ResizeEdge>,
}

/// What remains to be done, with the clips' beat arithmetic, after a
/// primary press on the arrangement grid.
#[derive(Clone, Copy, Debug, PartialEq, Eq, Structural)]
pub enum GridAction {
    /// Nothing remains.
    Done,
    /// Start dragging the hit clip from the pointer: moving it, or resizing
    /// it by the grabbed edge; no drag when the clip is gone.
    BeginDrag(ClipHit),
    /// Follow the pointer with the drag just started on a new clip.
    FollowDrag,
    /// Split the hit clip at the snapped beat.
    Split(ClipHit),
    /// Duplicate the hit clip after itself and select the copy.
    Duplicate(ClipHit),
}

/// The selection of the clip a hit points at.
pub open spec fn hit_selection(h: ClipHit) -> ClipSelection {
    ClipSelection { track_index: h.track_index, clip_id: h.clip_id }
}

/// The playlist (arrangement) editor: its lanes and clips, the active tool,
/// the selection, a drag in progress and the viewport. Every clip id is
/// below the id the next clip gets, so new clips never reuse an id.
pub struct PlaylistView {
    active_tool: PlaylistTool,
    selected_track: usize,
    selected_clip: Option<ClipSelection>,
    clip_drag: Option<ClipDrag>,
    next_clip_id: usize,
    viewport: PlaylistViewport,
    tracks: Vec<PlaylistTrack>,
}

impl PlaylistView {
    #[verifier::type_invariant]
    spec fn fresh_ids(self) -> bool {
        ids_below(self.tracks@, self.next_clip_id)
    }

    pub closed spec fn tool_view(self) -> PlaylistTool {
        self.active_tool
    }

    pub closed spec fn selected_track_view(self) -> usize {
        self.selected_track
    }

    pub closed spec fn selection_view(self) -> Option<ClipSelection> {
        self.selected_clip
    }

    pub closed spec fn drag_view(self) -> Option<ClipDrag> {
        self.clip_drag
    }

    pub closed spec fn next_id_view(self) -> usize {
        self.next_clip_id
    }

    pub closed spec fn viewport_view(self) -> PlaylistViewport {
        self.viewport
    }

    pub closed spec fn tracks_view(self) -> Seq<PlaylistTrack> {
        self.tracks@
    }

    /// `after` differs from `before` in its lanes at most.
    pub open spec fn same_but_tracks(before: PlaylistView, after: PlaylistView) -> bool {
        &&& after.tool_view() == before.tool_view()
        &&& after.selected_track_view() == before.selected_track_view()
        &&& after.selection_view() == before.selection_view()
        &&& after.drag_view() == before.drag_view()
        &&& after.next_id_view() == before.next_id_view()
        &&& after.viewport_view() == before.viewport_view()
    }

    /// A playlist holding `tracks`, with the select tool, the first lane
    /// selected, no clip selected or dragged, a fresh viewport, and clip ids
    /// continuing one past the largest id in use (from 0 without clips).
    pub fn with_tracks(tracks: Vec<PlaylistTrack>) -> (r: PlaylistView)
        requires
            forall|t: int, c: int| 0 <= t < tracks@.len() && 0 <= c < tracks@[t].clips@.len()
                ==> #[trigger] tracks@[t].clips@[c].id < usize::MAX,
        ensures
            r.tool_view() == PlaylistTool::Select,
            r.selected_track_view() == 0,
            r.selection_view() is None,
            r.drag_view() is None,
            r.viewport_view() == (PlaylistViewport {
                visible_bars: Float32 { bits: DEFAULT_VISIBLE_BARS_BITS },
                vertical_scroll: Float32 { bits: 0 },
            }),
            r.tracks_view() == tracks@,
            is_next_id(clip_id_set(tracks@), r.next_id_view() as int),
    {
        let mut next: usize = 0;
        let mut t: usize = 0;
        while t < tracks.len()
            invariant
                t <= tracks@.len(),
                forall|a: int, c: int| 0 <= a < tracks@.len() && 0 <= c < tracks@[a].clips@.len()
                    ==> #[trigger] tracks@[a].clips@[c].id < usize::MAX,
                forall|a: int, c: int| 0 <= a < t && 0 <= c < tracks@[a].clips@.len() ==> #[trigger] tracks@[a].clips@[c].id < next,
                next > 0 ==> exists|a: int, c: int| 0 <= a < t && 0 <= c < tracks@[a].clips@.len()
                    && #[trigger] tracks@[a].clips@[c].id == next - 1,
            decreases tracks.len() - t,
        {
            let clips = &tracks[t].clips;
            let mut c: usize = 0;
            while c < clips.len()
                invariant
                    t < tracks@.len(),
                    clips@ == tracks@[t as int].clips@,
                    c <= clips@.len(),
                    forall|a: int, k: int| 0 <= a < tracks@.len() && 0 <= k < tracks@[a].clips@.len()
                        ==> #[trigger] tracks@[a].clips@[k].id < usize::MAX,
                    forall|a: int, k: int| 0 <= a < t && 0 <= k < tracks@[a].clips@.len() ==> #[trigger] tracks@[a].clips@[k].id < next,
                    forall|k: int| 0 <= k < c ==> #[trigger] clips@[k].id < next,
                    next > 0 ==> (exists|a: int, k: int| 0 <= a < t && 0 <= k < tracks@[a].clips@.len()
                        && #[trigger] tracks@[a].clips@[k].id == next - 1)
                        || (exists|k: int| 0 <= k < c && #[trigger] clips@[k].id == next - 1),
                decreases clips.len() - c,
            {
                let id = clips[c].id;
                assert(tracks@[t as int].clips@[c as int].id < usize::MAX);
                if id >= next {
                    next = id + 1;
                    assert(clips@[c as int].id == next - 1);
                }
                c = c + 1;
            }
            proof {
                if next > 0 {
                    if exists|k: int| 0 <= k < c && #[trigger] clips@[k].id == next - 1 {
                        let k = choose|k: int| 0 <= k < c && #[trigger] clips@[k].id == next - 1;
                        assert(tracks@[t as int].clips@[k].id == next - 1);
                    }
                }
                assert forall|a: int, k: int| 0 <= a < t + 1 && 0 <= k < tracks@[a].clips@.len()
                    implies #[trigger] tracks@[a].clips@[k].id < next by {
                    if a == t {
                        assert(clips@[k].id < next);
                    }
                }
            }
            t = t + 1;
        }
        proof {
            let ids = clip_id_set(tracks@);
            assert forall|k: usize| ids.contains(k) implies k < next by {
                let (a, c) = choose|a: int, c: int| 0 <= a < tracks@.len() && 0 <= c < tracks@[a].clips@.len()
                    && #[trigger] tracks@[a].clips@[c].id == k;
                assert(tracks@[a].clips@[c].id < next);
            }
            if next > 0 {
                let (a, c) = choose|a: int, c: int| 0 <= a < t && 0 <= c < tracks@[a].clips@.len()
                    && #[trigger] tracks@[a].clips@[c].id == next - 1;
                assert(ids.contains((next - 1) as usize));
            }
            if !ids.is_empty() {
                let k = ids.choose();
                assert(ids.contains(k));
            }
        }
        PlaylistView {
            active_tool: PlaylistTool::Select,
            selected_track: 0,
            selected_clip: None,
            clip_drag: None,
            next_clip_id: next,
            viewport: PlaylistViewport::new(),
            tracks,
        }
    }
}

} // verus!

verus! {

/// A note of the sample content, by its lane and the bits of its start,
/// length and velocity.
pub open spec fn sample_note(lane: usize, start: u32, length: u32, velocity: u32) -> PianoRollNoteData {
    PianoRollNoteData {
        lane,
        start_beat: Float32 { bits: start },
        length_beats: Float32 { bits: length },
        velocity: Float32 { bits: velocity },
    }
}

/// A clip of the sample content, unmuted, by the bits of its start and length.
pub open spec fn sample_clip(id: usize, label: Seq<char>, start: u32, length: u32) -> (usize, Seq<char>, Float32, Float32, bool) {
    (id, label, Float32 { bits: start }, Float32 { bits: length }, false)
}

/// The lanes a playlist starts with: four piano-roll lanes (drums, bass,
/// keys, lead) and an audio lane (vocals), eleven clips with ids 0 to 10.
pub open spec fn sample_lanes() -> Seq<(Seq<char>, Seq<char>, TrackKind, Seq<PianoRollNoteData>, Seq<(usize, Seq<char>, Float32, Float32, bool)>)> {
    seq![
        (
            "Drums"@,
            "Drum pattern lane"@,
            TrackKind::PianoRoll,
            seq![
                sample_note(15, 0x00000000, 0x3F000000, 0x3F6B851F),
                sample_note(15, 0x3F800000, 0x3F000000, 0x3F6147AE),
                sample_note(12, 0x40000000, 0x3F000000, 0x3F4CCCCD),
                sample_note(15, 0x40400000, 0x3F000000, 0x3F666666),
                sample_note(10, 0x40900000, 0x3F000000, 0x3F3D70A4),
                sample_note(12, 0x40C00000, 0x3F000000, 0x3F51EB85),
            ],
            seq![
                sample_clip(0, "Kick Loop"@, 0x00000000, 0x40800000),
                sample_clip(1, "Fill"@, 0x40C00000, 0x40000000),
                sample_clip(2, "Drop"@, 0x41000000, 0x40800000),
            ],
        ),
        (
            "Bass"@,
            "Piano roll lane"@,
            TrackKind::PianoRoll,
            seq![
                sample_note(13, 0x00000000, 0x3F800000, 0x3F570A3D),
                sample_note(11, 0x3FC00000, 0x3F400000, 0x3F4A3D71),
                sample_note(8, 0x40400000, 0x3FA00000, 0x3F6147AE),
                sample_note(10, 0x40A00000, 0x3F800000, 0x3F4F5C29),
                sample_note(6, 0x40D00000, 0x3F800000, 0x3F428F5C),
            ],
            seq![
                sample_clip(3, "Bassline"@, 0x00000000, 0x41000000),
                sample_clip(4, "Pickup"@, 0x41100000, 0x40400000),
            ],
        ),
        (
            "Keys"@,
            "Chord lane"@,
            TrackKind::PianoRoll,
            seq![
                sample_note(12, 0x00000000, 0x3FC00000, 0x3F3D70A4),
                sample_note(10, 0x00000000, 0x3FC00000, 0x3F35C28F),
                sample_note(8, 0x00000000, 0x3FC00000, 0x3F2E147B),
                sample_note(11, 0x40000000, 0x3FC00000, 0x3F400000),
                sample_note(9, 0x40000000, 0x3FC00000, 0x3F333333),
                sample_note(7, 0x40000000, 0x3FC00000, 0x3F2B851F),
                sample_note(10, 0x40800000, 0x40000000, 0x3F47AE14),
                sample_note(7, 0x40800000, 0x40000000, 0x3F30A3D7),
                sample_note(5, 0x40800000, 0x40000000, 0x3F266666),
            ],
            seq![
                sample_clip(5, "Pads"@, 0x40000000, 0x40C00000),
                sample_clip(6, "Bridge Chords"@, 0x41200000, 0x40000000),
            ],
        ),
        (
            "Lead"@,
            "Melody lane"@,
            TrackKind::PianoRoll,
            seq![
                sample_note(5, 0x3F000000, 0x3F400000, 0x3F5C28F6),
                sample_note(6, 0x3FC00000, 0x3F000000, 0x3F4F5C29),
                sample_note(8, 0x40100000, 0x3F800000, 0x3F68F5C3),
                sample_note(7, 0x40800000, 0x3F000000, 0x3F4CCCCD),
                sample_note(9, 0x40A00000, 0x3F400000, 0x3F63D70A),
                sample_note(11, 0x40C00000, 0x3FA00000, 0x3F70A3D7),
            ],
            seq![
                sample_clip(7, "Hook"@, 0x40800000, 0x40800000),
                sample_clip(8, "Answer"@, 0x41100000, 0x40000000),
            ],
        ),
        (
            "Vox"@,
            "Audio lane"@,
            TrackKind::Audio,
            Seq::<PianoRollNoteData>::empty(),
            seq![
                sample_clip(9, "Verse Vox"@, 0x3F800000, 0x40400000),
                sample_clip(10, "Chorus Vox"@, 0x41000000, 0x40800000),
            ],
        ),
    ]
}

fn note(lane: usize, start: u32, length: u32, velocity: u32) -> (r: PianoRollNoteData)
    ensures
        r == sample_note(lane, start, length, velocity),
{
    PianoRollNoteData {
        lane,
        start_beat: Float32 { bits: start },
        length_beats: Float32 { bits: length },
        velocity: Float32 { bits: velocity },
    }
}

fn clip(id: usize, label: &str, start: u32, length: u32) -> (r: PlaylistClipData)
    ensures
        clip_view(r) == sample_clip(id, label@, start, length),
{
    PlaylistClipData {
        id,
        label: String::from_str(label),
        start_beat: Float32 { bits: start },
        length_beats: Float32 { bits: length },
        muted: false,
    }
}

fn sample_drums() -> (r: PlaylistTrack)
    ensures
        lane_view(r) == sample_lanes()[0],
{
    let mut notes: Vec<PianoRollNoteData> = Vec::new();
    notes.push(note(15, 0x00000000, 0x3F000000, 0x3F6B851F));
    notes.push(note(15, 0x3F800000, 0x3F000000, 0x3F6147AE));
    notes.push(note(12, 0x40000000, 0x3F000000, 0x3F4CCCCD));
    notes.push(note(15, 0x40400000, 0x3F000000, 0x3F666666));
    notes.push(note(10, 0x40900000, 0x3F000000, 0x3F3D70A4));
    notes.push(note(12, 0x40C00000, 0x3F000000, 0x3F51EB85));
    let mut clips: Vec<PlaylistClipData> = Vec::new();
    clips.push(clip(0, "Kick Loop", 0x00000000, 0x40800000));
    clips.push(clip(1, "Fill", 0x40C00000, 0x40000000));
    clips.push(clip(2, "Drop", 0x41000000, 0x40800000));
    let r = PlaylistTrack::piano_roll("Drums", "Drum pattern lane", notes, clips);
    assert(r.clips@.map_values(|c: PlaylistClipData| clip_view(c)) =~= sample_lanes()[0].4);
    assert(r.notes@ =~= sample_lanes()[0].3);
    r
}

fn sample_bass() -> (r: PlaylistTrack)
    ensures
        lane_view(r) == sample_lanes()[1],
{
    let mut notes: Vec<PianoRollNoteData> = Vec::new();
    notes.push(note(13, 0x00000000, 0x3F800000, 0x3F570A3D));
    notes.push(note(11, 0x3FC00000, 0x3F400000, 0x3F4A3D71));
    notes.push(note(8, 0x40400000, 0x3FA00000, 0x3F6147AE));
    notes.push(note(10, 0x40A00000, 0x3F800000, 0x3F4F5C29));
    notes.push(note(6, 0x40D00000, 0x3F800000, 0x3F428F5C));
    let mut clips: Vec<PlaylistClipData> = Vec::new();
    clips.push(clip(3, "Bassline", 0x00000000, 0x41000000));
    clips.push(clip(4, "Pickup", 0x41100000, 0x40400000));
    let r = PlaylistTrack::piano_roll("Bass", "Piano roll lane", notes, clips);
    assert(r.clips@.map_values(|c: PlaylistClipData| clip_view(c)) =~= sample_lanes()[1].4);
    assert(r.notes@ =~= sample_lanes()[1].3);
    r
}

fn sample_keys() -> (r: PlaylistTrack)
    ensures
        lane_view(r) == sample_lanes()[2],
{
    let mut notes: Vec<PianoRollNoteData> = Vec::new();
    notes.push(note(12, 0x00000000, 0x3FC00000, 0x3F3D70A4));
    notes.push(note(10, 0x00000000, 0x3FC00000, 0x3F35C28F));
    notes.push(note(8, 0x00000000, 0x3FC00000, 0x3F2E147B));
    notes.push(note(11, 0x40000000, 0x3FC00000, 0x3F400000));
    notes.push(note(9, 0x40000000, 0x3FC00000, 0x3F333333));
    notes.push(note(7, 0x40000000, 0x3FC00000, 0x3F2B851F));
    notes.push(note(10, 0x40800000, 0x40000000, 0x3F47AE14));
    notes.push(note(7, 0x40800000, 0x40000000, 0x3F30A3D7));
    notes.push(note(5, 0x40800000, 0x40000000, 0x3F266666));
    let mut clips: Vec<PlaylistClipData> = Vec::new();
    clips.push(clip(5, "Pads", 0x40000000, 0x40C00000));
    clips.push(clip(6, "Bridge Chords", 0x41200000, 0x40000000));
    let r = PlaylistTrack::piano_roll("Keys", "Chord lane", notes, clips);
    assert(r.clips@.map_values(|c: PlaylistClipData| clip_view(c)) =~= sample_lanes()[2].4);
    assert(r.notes@ =~= sample_lanes()[2].3);
    r
}

fn sample_lead() -> (r: PlaylistTrack)
    ensures
        lane_view(r) == sample_lanes()[3],
{
    let mut notes: Vec<PianoRollNoteData> = Vec::new();
    notes.push(note(5, 0x3F000000, 0x3F400000, 0x3F5C28F6));
    notes.push(note(6, 0x3FC00000, 0x3F000000, 0x3F4F5C29));
    notes.push(note(8, 0x40100000, 0x3F800000, 0x3F68F5C3));
    notes.push(note(7, 0x40800000, 0x3F000000, 0x3F4CCCCD));
    notes.push(note(9, 0x40A00000, 0x3F400000, 0x3F63D70A));
    notes.push(note(11, 0x40C00000, 0x3FA00000, 0x3F70A3D7));
    let mut clips: Vec<PlaylistClipData> = Vec::new();
    clips.push(clip(7, "Hook", 0x40800000, 0x40800000));
    clips.push(clip(8, "Answer", 0x41100000, 0x40000000));
    let r = PlaylistTrack::piano_roll("Lead", "Melody lane", notes, clips);
    assert(r.clips@.map_values(|c: PlaylistClipData| clip_view(c)) =~= sample_lanes()[3].4);
    assert(r.notes@ =~= sample_lanes()[3].3);
    r
}

fn sample_vox() -> (r: PlaylistTrack)
    ensures
        lane_view(r) == sample_lanes()[4],
{
    let mut clips: Vec<PlaylistClipData> = Vec::new();
    clips.push(clip(9, "Verse Vox", 0x3F800000, 0x40400000));
    clips.push(clip(10, "Chorus Vox", 0x41000000, 0x40800000));
    let r = PlaylistTrack::audio("Vox", "Audio lane", clips);
    assert(r.clips@.map_values(|c: PlaylistClipData| clip_view(c)) =~= sample_lanes()[4].4);
    assert(r.notes@ =~= sample_lanes()[4].3);
    r
}

/// The sample lanes of a new playlist.
fn sample_tracks() -> (r: Vec<PlaylistTrack>)
    ensures
        r@.map_values(|t: PlaylistTrack| lane_view(t)) == sample_lanes(),
{
    let mut tracks: Vec<PlaylistTrack> = Vec::new();
    tracks.push(sample_drums());
    tracks.push(sample_bass());
    tracks.push(sample_keys());
    tracks.push(sample_lead());
    tracks.push(sample_vox());
    assert(tracks@.map_values(|t: PlaylistTrack| lane_view(t)) =~= sample_lanes());
    tracks
}

} // verus!

verus! {

/// Positions of the piano-roll lanes among the first `n` lanes, in order.
pub open spec fn roll_indices_upto(tracks: Seq<PlaylistTrack>, n: int) -> Seq<int>
    decreases n,
{
    if n <= 0 {
        Seq::<int>::empty()
    } else {
        let before = roll_indices_upto(tracks, n - 1);
        if tracks[n - 1].kind == TrackKind::PianoRoll {
            before.push(n - 1)
        } else {
            before
        }
    }
}

/// Positions of the piano-roll lanes, in order.
pub open spec fn roll_indices(tracks: Seq<PlaylistTrack>) -> Seq<int> {
    roll_indices_upto(tracks, tracks.len() as int)
}

proof fn lemma_roll_indices_in_range(tracks: Seq<PlaylistTrack>, n: int)
    requires
        0 <= n <= tracks.len(),
    ensures
        forall|k: int| 0 <= k < roll_indices_upto(tracks, n).len() ==> 0 <= #[trigger] roll_indices_upto(tracks, n)[k] < n,
    decreases n,
{
    if n > 0 {
        lemma_roll_indices_in_range(tracks, n - 1);
        let before = roll_indices_upto(tracks, n - 1);
        let s = roll_indices_upto(tracks, n);
        assert forall|k: int| 0 <= k < s.len() implies 0 <= #[trigger] s[k] < n by {
            if k < before.len() {
                assert(s[k] == before[k]);
            }
        }
    }
}

proof fn lemma_sample_ids(t: int, c: int)
    requires
        0 <= t < sample_lanes().len(),
        0 <= c < sample_lanes()[t].4.len(),
    ensures
        sample_lanes()[t].4[c].0 <= 10,
{
    let lanes = sample_lanes();
    assert(lanes.len() == 5);
    if t == 0 {
        assert(lanes[0].4.len() == 3);
        assert(lanes[0].4[0].0 == 0 && lanes[0].4[1].0 == 1 && lanes[0].4[2].0 == 2);
    } else if t == 1 {
        assert(lanes[1].4.len() == 2);
        assert(lanes[1].4[0].0 == 3 && lanes[1].4[1].0 == 4);
    } else if t == 2 {
        assert(lanes[2].4.len() == 2);
        assert(lanes[2].4[0].0 == 5 && lanes[2].4[1].0 == 6);
    } else if t == 3 {
        assert(lanes[3].4.len() == 2);
        assert(lanes[3].4[0].0 == 7 && lanes[3].4[1].0 == 8);
    } else {
        assert(lanes[4].4.len() == 2);
        assert(lanes[4].4[0].0 == 9 && lanes[4].4[1].0 == 10);
    }
}

impl PlaylistView {
    /// A playlist with the sample lanes, the select tool, the first lane
    /// selected, nothing selected or dragged, and a fresh viewport.
    pub fn new() -> (r: PlaylistView)
        ensures
            r.tool_view() == PlaylistTool::Select,
            r.selected_track_view() == 0,
            r.selection_view() is None,
            r.drag_view() is None,
            r.viewport_view() == (PlaylistViewport {
                visible_bars: Float32 { bits: DEFAULT_VISIBLE_BARS_BITS },
                vertical_scroll: Float32 { bits: 0 },
            }),
            r.tracks_view().map_values(|t: PlaylistTrack| lane_view(t)) == sample_lanes(),
            is_next_id(clip_id_set(r.tracks_view()), r.next_id_view() as int),
    {
        let tracks = sample_tracks();
        proof {
            assert forall|t: int, c: int| 0 <= t < tracks@.len() && 0 <= c < tracks@[t].clips@.len()
                implies #[trigger] tracks@[t].clips@[c].id < usize::MAX by {
                let lanes = tracks@.map_values(|t: PlaylistTrack| lane_view(t));
                assert(lanes[t] == lane_view(tracks@[t]));
                assert(lane_view(tracks@[t]).4[c] == clip_view(tracks@[t].clips@[c]));
                lemma_sample_ids(t, c);
            }
        }
        Self::with_tracks(tracks)
    }

    /// The number of lanes.
    pub fn track_count(&self) -> (r: usize)
        ensures
            r == self.tracks_view().len(),
    {
        self.tracks.len()
    }

    /// The id the next new clip gets.
    pub fn next_clip_id(&self) -> (r: usize)
        ensures
            r == self.next_id_view(),
    {
        self.next_clip_id
    }

    /// Select the lane at `index`.
    pub fn select_track(&mut self, index: usize)
        ensures
            final(self).selected_track_view() == index,
            final(self).tracks_view() == old(self).tracks_view(),
            final(self).tool_view() == old(self).tool_view(),
            final(self).selection_view() == old(self).selection_view(),
            final(self).drag_view() == old(self).drag_view(),
            final(self).next_id_view() == old(self).next_id_view(),
            final(self).viewport_view() == old(self).viewport_view(),
    {
        proof { use_type_invariant(&*self); }
        self.selected_track = index;
    }

    /// Select a clip, or none.
    pub fn select_clip(&mut self, selection: Option<ClipSelection>)
        ensures
            final(self).selection_view() == selection,
            final(self).tracks_view() == old(self).tracks_view(),
            final(self).tool_view() == old(self).tool_view(),
            final(self).selected_track_view() == old(self).selected_track_view(),
            final(self).drag_view() == old(self).drag_view(),
            final(self).next_id_view() == old(self).next_id_view(),
            final(self).viewport_view() == old(self).viewport_view(),
    {
        proof { use_type_invariant(&*self); }
        self.selected_clip = selection;
    }

    /// Picks a tool from the toolbar; a drag in progress ends.
    pub fn select_tool(&mut self, tool: PlaylistTool)
        ensures
            final(self).tool_view() == tool,
            final(self).drag_view() == None::<ClipDrag>,
            final(self).tracks_view() == old(self).tracks_view(),
            final(self).selected_track_view() == old(self).selected_track_view(),
            final(self).selection_view() == old(self).selection_view(),
            final(self).next_id_view() == old(self).next_id_view(),
            final(self).viewport_view() == old(self).viewport_view(),
    {
        proof { use_type_invariant(&*self); }
        self.active_tool = tool;
        self.clip_drag = None;
    }

    /// Start or end a clip drag.
    pub fn set_clip_drag(&mut self, drag: Option<ClipDrag>)
        ensures
            final(self).drag_view() == drag,
            final(self).tracks_view() == old(self).tracks_view(),
            final(self).tool_view() == old(self).tool_view(),
            final(self).selected_track_view() == old(self).selected_track_view(),
            final(self).selection_view() == old(self).selection_view(),
            final(self).next_id_view() == old(self).next_id_view(),
            final(self).viewport_view() == old(self).viewport_view(),
    {
        proof { use_type_invariant(&*self); }
        self.clip_drag = drag;
    }

    /// The name of the selected lane ("Playlist Track" when the selection
    /// is past the lanes).
    pub fn active_track_name(&self) -> (r: &str)
        ensures
            r@ == (if self.selected_track_view() < self.tracks_view().len() {
                self.tracks_view()[self.selected_track_view() as int].name@
            } else {
                "Playlist Track"@
            }),
    {
        if self.selected_track < self.tracks.len() {
            self.tracks[self.selected_track].name.as_str()
        } else {
            "Playlist Track"
        }
    }

    /// What the piano roll shows of the selected lane; an empty piano-roll
    /// lane when the selection is past the lanes.
    pub fn active_track_snapshot(&self) -> (r: PianoRollTrackSnapshot)
        ensures
            self.selected_track_view() < self.tracks_view().len() ==> is_snapshot_of(
                r,
                self.tracks_view()[self.selected_track_view() as int],
                self.selected_track_view() as int,
            ),
            self.selected_track_view() >= self.tracks_view().len() ==> r.track_index == 0 && r.name@
                == "Playlist Track"@ && r.lane_label@ == "Piano roll lane"@ && r.kind == TrackKind::PianoRoll
                && r.notes@.len() == 0,
    {
        if self.selected_track < self.tracks.len() {
            self.tracks[self.selected_track].snapshot(self.selected_track)
        } else {
            PianoRollTrackSnapshot {
                track_index: 0,
                name: String::from_str("Playlist Track"),
                lane_label: String::from_str("Piano roll lane"),
                kind: TrackKind::PianoRoll,
                notes: Vec::new(),
            }
        }
    }

    /// What the piano roll shows of every piano-roll lane, in lane order.
    pub fn piano_roll_tracks(&self) -> (r: Vec<PianoRollTrackSnapshot>)
        ensures
            r@.len() == roll_indices(self.tracks_view()).len(),
            forall|k: int| 0 <= k < r@.len() ==> is_snapshot_of(
                #[trigger] r@[k],
                self.tracks_view()[roll_indices(self.tracks_view())[k]],
                roll_indices(self.tracks_view())[k],
            ),
    {
        let ghost tracks = self.tracks@;
        let mut r: Vec<PianoRollTrackSnapshot> = Vec::new();
        let mut i: usize = 0;
        while i < self.tracks.len()
            invariant
                tracks == self.tracks@,
                i <= tracks.len(),
                r@.len() == roll_indices_upto(tracks, i as int).len(),
                forall|k: int| 0 <= k < r@.len() ==> is_snapshot_of(
                    #[trigger] r@[k],
                    tracks[roll_indices_upto(tracks, i as int)[k]],
                    roll_indices_upto(tracks, i as int)[k],
                ),
            decreases self.tracks.len() - i,
        {
            let ghost before = roll_indices_upto(tracks, i as int);
            assert(roll_indices_upto(tracks, i as int + 1) == if tracks[i as int].kind == TrackKind::PianoRoll {
                before.push(i as int)
            } else {
                before
            });
            if self.tracks[i].kind == TrackKind::PianoRoll {
                let snapshot = self.tracks[i].snapshot(i);
                r.push(snapshot);
            }
            i = i + 1;
        }
        r
    }

    /// Give the selected lane new notes, when it is a piano-roll lane.
    pub fn set_active_track_notes(&mut self, notes: Vec<PianoRollNoteData>)
        ensures
            Self::same_but_tracks(*old(self), *final(self)),
            ({
                let sel = old(self).selected_track_view() as int;
                if sel < old(self).tracks_view().len() && old(self).tracks_view()[sel].kind == TrackKind::PianoRoll {
                    final(self).tracks_view() == old(self).tracks_view().update(
                        sel,
                        PlaylistTrack { notes, ..old(self).tracks_view()[sel] },
                    )
                } else {
                    final(self).tracks_view() == old(self).tracks_view()
                }
            }),
    {
        proof { use_type_invariant(&*self); }
        let sel = self.selected_track;
        if sel < self.tracks.len() && self.tracks[sel].kind == TrackKind::PianoRoll {
            let mut tracks: Vec<PlaylistTrack> = Vec::new();
            std::mem::swap(&mut tracks, &mut self.tracks);
            let ghost before = tracks@;
            let mut track = tracks.remove(sel);
            track.notes = notes;
            tracks.insert(sel, track);
            assert(tracks@ =~= before.update(sel as int, PlaylistTrack { notes, ..before[sel as int] }));
            assert(ids_below(tracks@, self.next_clip_id)) by {
                assert forall|t: int, c: int| 0 <= t < tracks@.len() && 0 <= c < tracks@[t].clips@.len()
                    implies #[trigger] tracks@[t].clips@[c].id < self.next_clip_id by {
                    assert(tracks@[t].clips == before[t].clips);
                }
            }
            self.tracks = tracks;
        }
    }

    /// Add a new clip at `start_beat` on lane `track_index`: the shortest
    /// clip length, the lane's default label, unmuted, under the next id.
    /// Returns its id, which no other clip has.
    pub fn create_clip(&mut self, track_index: usize, start_beat: Float32) -> (r: usize)
        requires
            track_index < old(self).tracks_view().len(),
            old(self).next_id_view() < usize::MAX,
        ensures
            r == old(self).next_id_view(),
            !clip_id_set(old(self).tracks_view()).contains(r),
            final(self).next_id_view() == r + 1,
            final(self).tool_view() == old(self).tool_view(),
            final(self).selected_track_view() == old(self).selected_track_view(),
            final(self).selection_view() == old(self).selection_view(),
            final(self).drag_view() == old(self).drag_view(),
            final(self).viewport_view() == old(self).viewport_view(),
            clip_added(old(self).tracks_view(), final(self).tracks_view(), track_index, r, start_beat),
    {
        proof { use_type_invariant(&*self); }
        let clip_id = self.next_clip_id;
        let label = default_clip_label(&self.tracks[track_index]);
        let clip = PlaylistClipData {
            id: clip_id,
            label,
            start_beat,
            length_beats: Float32 { bits: MIN_CLIP_LENGTH_BITS },
            muted: false,
        };
        let mut tracks: Vec<PlaylistTrack> = Vec::new();
        std::mem::swap(&mut tracks, &mut self.tracks);
        let ghost before = tracks@;
        let mut track = tracks.remove(track_index);
        let ghost old_clips = track.clips@;
        track.clips.push(clip);
        let ghost new_track = track;
        tracks.insert(track_index, track);
        assert(tracks@ =~= before.update(track_index as int, new_track));
        assert(new_track.clips@.drop_last() =~= old_clips);
        proof {
            assert forall|t: int, c: int| 0 <= t < tracks@.len() && 0 <= c < tracks@[t].clips@.len()
                implies #[trigger] tracks@[t].clips@[c].id < clip_id + 1 by {
                if t == track_index && c < old_clips.len() {
                    assert(tracks@[t].clips@[c] == before[t].clips@[c]);
                } else if t != track_index {
                    assert(tracks@[t].clips@[c] == before[t].clips@[c]);
                }
            }
            if clip_id_set(before).contains(clip_id) {
                let (t, c) = choose|t: int, c: int| 0 <= t < before.len() && 0 <= c < before[t].clips@.len()
                    && #[trigger] before[t].clips@[c].id == clip_id;
                assert(before[t].clips@[c].id < clip_id);
            }
        }
        self.next_clip_id = clip_id + 1;
        self.tracks = tracks;
        clip_id
    }

    /// A primary press on the arrangement grid, with `hit` the clip under
    /// the pointer, `pointer_track` the lane under it and `snapped_beat` its
    /// beat on the snap grid (or as is for a free drag).
    ///
    /// The caller computes `snapped_beat` with float arithmetic: the pointer's
    /// beat rounded to the snap grid, or for a free drag that beat taken as
    /// at least 0; after a `FollowDrag` it keeps the new clip within the grid
    /// as the drag goes on, its start in [0, grid length - 0.25].
    ///
    /// On a clip, its lane becomes the selected lane and, by tool: select and
    /// draw select the clip and leave a drag of it to begin; split ends any
    /// drag, selects the clip and leaves it to split; duplicate ends any drag
    /// and leaves the clip to duplicate; mute ends any drag, mutes or
    /// unmutes the clip and selects it. Off the clips, on a lane: that lane
    /// becomes the selected lane; draw adds a clip there at the snapped beat
    /// under the next id, selects it and starts a drag creating it; every
    /// other tool clears the clip selection and ends any drag. Off the lanes,
    /// only a split, duplicate or mute press ends a drag.
    pub fn primary_press(&mut self, hit: Option<ClipHit>, pointer_track: Option<usize>, snapped_beat: Float32) -> (r: GridAction)
        requires
            old(self).tool_view() == PlaylistTool::Draw && hit is None && pointer_track is Some ==> {
                &&& pointer_track.unwrap() < old(self).tracks_view().len()
                &&& old(self).next_id_view() < usize::MAX
            },
        ensures
            final(self).tool_view() == old(self).tool_view(),
            final(self).viewport_view() == old(self).viewport_view(),
            match hit {
                Some(h) => {
                    &&& final(self).selected_track_view() == h.track_index
                    &&& final(self).next_id_view() == old(self).next_id_view()
                    &&& match old(self).tool_view() {
                        PlaylistTool::Select | PlaylistTool::Draw => {
                            &&& r == GridAction::BeginDrag(h)
                            &&& final(self).selection_view() == Some(hit_selection(h))
                            &&& final(self).drag_view() == old(self).drag_view()
                            &&& final(self).tracks_view() == old(self).tracks_view()
                        },
                        PlaylistTool::Split => {
                            &&& r == GridAction::Split(h)
                            &&& final(self).selection_view() == Some(hit_selection(h))
                            &&& final(self).drag_view() == None::<ClipDrag>
                            &&& final(self).tracks_view() == old(self).tracks_view()
                        },
                        PlaylistTool::Duplicate => {
                            &&& r == GridAction::Duplicate(h)
                            &&& final(self).selection_view() == old(self).selection_view()
                            &&& final(self).drag_view() == None::<ClipDrag>
                            &&& final(self).tracks_view() == old(self).tracks_view()
                        },
                        PlaylistTool::Mute => {
                            &&& r == GridAction::Done
                            &&& final(self).selection_view() == Some(hit_selection(h))
                            &&& final(self).drag_view() == None::<ClipDrag>
                            &&& mute_toggled(old(self).tracks_view(), final(self).tracks_view(), h.track_index, h.clip_id)
                        },
                    }
                },
                None => match pointer_track {
                    Some(t) => {
                        &&& final(self).selected_track_view() == t
                        &&& if old(self).tool_view() == PlaylistTool::Draw {
                            let id = old(self).next_id_view();
                            &&& r == GridAction::FollowDrag
                            &&& final(self).next_id_view() == id + 1
                            &&& !clip_id_set(old(self).tracks_view()).contains(id)
                            &&& clip_added(old(self).tracks_view(), final(self).tracks_view(), t, id, snapped_beat)
                            &&& final(self).selection_view() == Some(ClipSelection { track_index: t, clip_id: id })
                            &&& final(self).drag_view() == Some(ClipDrag {
                                track_index: t,
                                clip_id: id,
                                mode: ClipDragMode::Create { anchor_beat: snapped_beat },
                            })
                        } else {
                            &&& r == GridAction::Done
                            &&& final(self).next_id_view() == old(self).next_id_view()
                            &&& final(self).tracks_view() == old(self).tracks_view()
                            &&& final(self).selection_view() == None::<ClipSelection>
                            &&& final(self).drag_view() == None::<ClipDrag>
                        }
                    },
                    None => {
                        &&& r == GridAction::Done
                        &&& final(self).selected_track_view() == old(self).selected_track_view()
                        &&& final(self).next_id_view() == old(self).next_id_view()
                        &&& final(self).tracks_view() == old(self).tracks_view()
                        &&& final(self).selection_view() == old(self).selection_view()
                        &&& final(self).drag_view() == (match old(self).tool_view() {
                            PlaylistTool::Select | PlaylistTool::Draw => old(self).drag_view(),
                            _ => None,
                        })
                    },
                },
            },
    {
        let tool = self.active_tool;
        let ends_drag = match tool {
            PlaylistTool::Select | PlaylistTool::Draw => false,
            _ => true,
        };
        if ends_drag {
            self.set_clip_drag(None);
        }
        match hit {
            Some(h) => {
                self.select_track(h.track_index);
                let selection = ClipSelection { track_index: h.track_index, clip_id: h.clip_id };
                match tool {
                    PlaylistTool::Select | PlaylistTool::Draw => {
                        self.select_clip(Some(selection));
                        GridAction::BeginDrag(h)
                    },
                    PlaylistTool::Split => {
                        self.select_clip(Some(selection));
                        GridAction::Split(h)
                    },
                    PlaylistTool::Duplicate => GridAction::Duplicate(h),
                    PlaylistTool::Mute => {
                        self.toggle_clip_mute(h.track_index, h.clip_id);
                        self.select_clip(Some(selection));
                        GridAction::Done
                    },
                }
            },
            None => match pointer_track {
                Some(t) => {
                    self.select_track(t);
                    match tool {
                        PlaylistTool::Draw => {
                            let clip_id = self.create_clip(t, snapped_beat);
                            self.select_clip(Some(ClipSelection { track_index: t, clip_id }));
                            self.set_clip_drag(Some(ClipDrag {
                                track_index: t,
                                clip_id,
                                mode: ClipDragMode::Create { anchor_beat: snapped_beat },
                            }));
                            GridAction::FollowDrag
                        },
                        _ => {
                            self.select_clip(None);
                            self.set_clip_drag(None);
                            GridAction::Done
                        },
                    }
                },
                None => GridAction::Done,
            },
        }
    }

    /// Take the clips of lane `index` out, leaving the lane without clips.
    fn take_clips(&mut self, index: usize) -> (r: Vec<PlaylistClipData>)
        requires
            index < old(self).tracks_view().len(),
        ensures
            r@ == old(self).tracks_view()[index as int].clips@,
            forall|c: int| 0 <= c < r@.len() ==> #[trigger] r@[c].id < old(self).next_id_view(),
            Self::same_but_tracks(*old(self), *final(self)),
            final(self).tracks_view() == old(self).tracks_view().update(
                index as int,
                PlaylistTrack { clips: final(self).tracks_view()[index as int].clips, ..old(self).tracks_view()[index as int] },
            ),
            final(self).tracks_view()[index as int].clips@.len() == 0,
    {
        proof { use_type_invariant(&*self); }
        let mut tracks: Vec<PlaylistTrack> = Vec::new();
        std::mem::swap(&mut tracks, &mut self.tracks);
        let ghost before = tracks@;
        let mut track = tracks.remove(index);
        let mut clips: Vec<PlaylistClipData> = Vec::new();
        std::mem::swap(&mut clips, &mut track.clips);
        let ghost emptied = track;
        tracks.insert(index, track);
        assert(tracks@ =~= before.update(index as int, emptied));
        assert forall|c: int| 0 <= c < clips@.len() implies #[trigger] clips@[c].id < self.next_clip_id by {
            assert(before[index as int].clips@[c] == clips@[c]);
        }
        assert forall|t: int, c: int| 0 <= t < tracks@.len() && 0 <= c < tracks@[t].clips@.len()
            implies #[trigger] tracks@[t].clips@[c].id < self.next_clip_id by {
            assert(t != index);
            assert(tracks@[t] == before[t]);
        }
        self.tracks = tracks;
        clips
    }

    /// Give lane `index` the clips `clips`, whose ids are all below the next id.
    fn put_clips(&mut self, index: usize, clips: Vec<PlaylistClipData>)
        requires
            index < old(self).tracks_view().len(),
            forall|c: int| 0 <= c < clips@.len() ==> #[trigger] clips@[c].id < old(self).next_id_view(),
        ensures
            Self::same_but_tracks(*old(self), *final(self)),
            final(self).tracks_view() == old(self).tracks_view().update(
                index as int,
                PlaylistTrack { clips, ..old(self).tracks_view()[index as int] },
            ),
    {
        proof { use_type_invariant(&*self); }
        let mut tracks: Vec<PlaylistTrack> = Vec::new();
        std::mem::swap(&mut tracks, &mut self.tracks);
        let ghost before = tracks@;
        let mut track = tracks.remove(index);
        track.clips = clips;
        let ghost filled = track;
        tracks.insert(index, track);
        assert(tracks@ =~= before.update(index as int, filled));
        assert forall|t: int, c: int| 0 <= t < tracks@.len() && 0 <= c < tracks@[t].clips@.len()
            implies #[trigger] tracks@[t].clips@[c].id < self.next_clip_id by {
            if t != index {
                assert(tracks@[t] == before[t]);
            }
        }
        self.tracks = tracks;
    }

    /// Flip the mute of the first clip with id `clip_id` on lane
    /// `track_index`, if there is one.
    pub fn toggle_clip_mute(&mut self, track_index: usize, clip_id: usize)
        ensures
            Self::same_but_tracks(*old(self), *final(self)),
            mute_toggled(old(self).tracks_view(), final(self).tracks_view(), track_index, clip_id),
    {
        if track_index >= self.tracks.len() {
            return;
        }
        let found = find_clip_data(&self.tracks[track_index].clips, clip_id);
        if let Some(i) = found {
            let ghost ts = self.tracks@;
            let mut clips = self.take_clips(track_index);
            let ghost mid = self.tracks_view();
            let ghost old_clips = clips@;
            let mut clip = clips.remove(i);
            clip.muted = !clip.muted;
            clips.insert(i, clip);
            assert(clips@ =~= old_clips.update(i as int, PlaylistClipData { muted: !old_clips[i as int].muted, ..old_clips[i as int] }));
            assert forall|c: int| 0 <= c < clips@.len() implies #[trigger] clips@[c].id < self.next_id_view() by {
                assert(clips@[c].id == old_clips[c].id);
            }
            let ghost new_clips = clips;
            self.put_clips(track_index, clips);
            assert(mid.update(track_index as int, PlaylistTrack { clips: new_clips, ..mid[track_index as int] })
                =~= ts.update(track_index as int, PlaylistTrack { clips: new_clips, ..ts[track_index as int] }));
        }
    }

    /// Remove the first clip with id `clip_id` from lane `track_index`, if
    /// there is one; a selection or drag of that clip ends with it.
    pub fn remove_clip(&mut self, track_index: usize, clip_id: usize)
        ensures
            final(self).tool_view() == old(self).tool_view(),
            final(self).selected_track_view() == old(self).selected_track_view(),
            final(self).next_id_view() == old(self).next_id_view(),
            final(self).viewport_view() == old(self).viewport_view(),
            ({
                let ts = old(self).tracks_view();
                if track_index < ts.len() && clip_position(ts[track_index as int].clips@, clip_id) is Some {
                    let t = ts[track_index as int];
                    let i = clip_position(t.clips@, clip_id).unwrap();
                    let u = final(self).tracks_view()[track_index as int];
                    &&& final(self).tracks_view() == ts.update(track_index as int, PlaylistTrack { clips: u.clips, ..t })
                    &&& u.clips@ == t.clips@.remove(i)
                    &&& final(self).selection_view() == (if old(self).selection_view() == Some(
                        ClipSelection { track_index, clip_id },
                    ) {
                        None
                    } else {
                        old(self).selection_view()
                    })
                    &&& final(self).drag_view() == (if old(self).drag_view() matches Some(d) && d.track_index
                        == track_index && d.clip_id == clip_id {
                        None
                    } else {
                        old(self).drag_view()
                    })
                } else {
                    &&& final(self).tracks_view() == ts
                    &&& final(self).selection_view() == old(self).selection_view()
                    &&& final(self).drag_view() == old(self).drag_view()
                }
            }),
    {
        if track_index >= self.tracks.len() {
            return;
        }
        let found = find_clip_data(&self.tracks[track_index].clips, clip_id);
        let i = match found {
            Some(i) => i,
            None => return,
        };
        let ghost ts = self.tracks@;
        let mut clips = self.take_clips(track_index);
        let ghost mid = self.tracks_view();
        let ghost old_clips = clips@;
        let _removed = clips.remove(i);
        assert forall|c: int| 0 <= c < clips@.len() implies #[trigger] clips@[c].id < self.next_id_view() by {
            if c < i {
                assert(clips@[c] == old_clips[c]);
            } else {
                assert(clips@[c] == old_clips[c + 1]);
            }
        }
        self.put_clips(track_index, clips);
        assert(mid.update(track_index as int, PlaylistTrack { clips, ..mid[track_index as int] })
            =~= ts.update(track_index as int, PlaylistTrack { clips, ..ts[track_index as int] }));
        let selected = match self.selected_clip {
            Some(selection) => selection.track_index == track_index && selection.clip_id == clip_id,
            None => false,
        };
        if selected {
            self.select_clip(None);
        }
        let dragged = match self.clip_drag {
            Some(drag) => drag.track_index == track_index && drag.clip_id == clip_id,
            None => false,
        };
        if dragged {
            self.set_clip_drag(None);
        }
    }

    /// The first clip with id `clip_id` on lane `track_index`, if any.
    pub fn clip(&self, track_index: usize, clip_id: usize) -> (r: Option<&PlaylistClipData>)
        ensures
            ({
                let ts = self.tracks_view();
                if track_index < ts.len() && clip_position(ts[track_index as int].clips@, clip_id) is Some {
                    r == Some(&ts[track_index as int].clips@[clip_position(ts[track_index as int].clips@, clip_id).unwrap()])
                } else {
                    r is None
                }
            }),
    {
        if track_index >= self.tracks.len() {
            return None;
        }
        let clips = &self.tracks[track_index].clips;
        match find_clip_data(clips, clip_id) {
            Some(i) => {
                assert(clips@ == self.tracks@[track_index as int].clips@);
                Some(&clips[i])
            },
            None => None,
        }
    }
}

impl Default for PlaylistView {
    fn default() -> (r: PlaylistView)
        ensures
            r.tool_view() == PlaylistTool::Select,
            r.selected_track_view() == 0,
            r.selection_view() is None,
            r.drag_view() is None,
            r.tracks_view().map_values(|t: PlaylistTrack| lane_view(t)) == sample_lanes(),
            is_next_id(clip_id_set(r.tracks_view()), r.next_id_view() as int),
    {
        Self::new()
    }
}

} // verus!
