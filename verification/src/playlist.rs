//! Playlist tracks (horizontal lanes in the arrangement) and their ordering.
use vstd::prelude::*;
use vstd::string::*;
use vstd::multiset::Multiset;
use crate::{BeatTime, Id};
use crate::clip::{ClipId, PlaylistClip};
use crate::pattern::PatternId;

verus! {

/// Unique identifier for a track.
pub type TrackId = Id;

/// Default track height in pixels.
pub const DEFAULT_TRACK_HEIGHT: u32 = 64;

/// Where `x` first occurs in `s`: `Some(i)` for the least such index, or
/// `None` when `s` does not hold `x`.
pub open spec fn first_position<T>(s: Seq<T>, x: T) -> Option<int> {
    if s.contains(x) {
        Some(choose|i: int| 0 <= i < s.len() && s[i] == x && forall|j: int| 0 <= j < i ==> s[j] != x)
    } else {
        None
    }
}

/// `r` is the result of a first-occurrence search for `x` in `s`.
pub open spec fn is_first_position<T>(s: Seq<T>, x: T, r: Option<usize>) -> bool {
    match r {
        Some(i) => i < s.len() && s[i as int] == x && forall|j: int| 0 <= j < i ==> s[j] != x,
        None => !s.contains(x),
    }
}

/// Whether a track is silenced: it is muted, or some solo is active and it
/// is not soloed itself.
pub open spec fn effectively_muted(muted: bool, solo: bool, any_solo_active: bool) -> bool {
    muted || (any_solo_active && !solo)
}

/// Ids of a sequence of clips.
pub open spec fn clip_ids(clips: Seq<PlaylistClip>) -> Seq<ClipId> {
    clips.map_values(|c: PlaylistClip| c.id)
}

/// `r` is the smallest clip id that no clip of `clips` carries.
pub open spec fn is_least_free_clip_id(clips: Seq<PlaylistClip>, r: ClipId) -> bool {
    &&& !clip_ids(clips).contains(r)
    &&& forall|k: ClipId| k < r ==> #[trigger] clip_ids(clips).contains(k)
}

/// Among `0..=ids.len()` some value is missing from `ids`: `n` values
/// cannot cover `n + 1` distinct ones.
proof fn lemma_free_id_exists(ids: Seq<usize>)
    requires
        ids.len() <= usize::MAX,
    ensures
        exists|k: usize| k <= ids.len() && !ids.contains(k),
{
    let n = ids.len() as int;
    if forall|k: usize| k <= ids.len() ==> ids.contains(k) {
        let ints = ids.map_values(|x: usize| x as int);
        let s = ints.to_set();
        ints.lemma_cardinality_of_set();
        vstd::seq_lib::seq_to_set_is_finite(ints);
        vstd::set_lib::lemma_int_range(0, n + 1);
        assert forall|i: int| vstd::set_lib::set_int_range(0, n + 1).contains(i) implies s.contains(i) by {
            let k = i as usize;
            assert(k <= ids.len());
            assert(ids.contains(k));
            let j = choose|j: int| 0 <= j < ids.len() && ids[j] == k;
            assert(ints[j] == i);
        }
        vstd::set_lib::lemma_len_subset(vstd::set_lib::set_int_range(0, n + 1), s);
        assert(false);
    }
}

/// The smallest clip id that no clip of `clips` carries.
fn least_free_clip_id(clips: &Vec<PlaylistClip>) -> (r: ClipId)
    ensures
        is_least_free_clip_id(clips@, r),
{
    let count = clips.len();
    let ghost ids = clip_ids(clips@);
    proof { lemma_free_id_exists(ids); }
    let mut candidate: usize = 0;
    loop
        invariant
            ids == clip_ids(clips@),
            exists|k: usize| k <= ids.len() && !ids.contains(k),
            candidate <= ids.len(),
            forall|k: ClipId| k < candidate ==> #[trigger] ids.contains(k),
        decreases ids.len() - candidate,
    {
        match find_clip(clips, candidate) {
            None => {
                return candidate;
            },
            Some(i) => {
                assert(ids[i as int] == candidate);
                assert(ids.contains(candidate));
                let ghost free = choose|k: usize| k <= ids.len() && !ids.contains(k);
                assert(candidate < free);
                candidate = candidate + 1;
            },
        }
    }
}

/// Linear search for the first position of `x` in `s`.
pub fn find_first(s: &[usize], x: usize) -> (r: Option<usize>)
    ensures
        is_first_position(s@, x, r),
{
    let mut i: usize = 0;
    while i < s.len()
        invariant
            i <= s@.len(),
            forall|j: int| 0 <= j < i ==> s@[j] != x,
        decreases s.len() - i,
    {
        if s[i] == x {
            return Some(i);
        }
        i = i + 1;
    }
    None
}

/// Position of the first clip of `clips` whose id is `clip_id`.
fn find_clip(clips: &Vec<PlaylistClip>, clip_id: ClipId) -> (r: Option<usize>)
    ensures
        is_first_position(clip_ids(clips@), clip_id, r),
{
    let mut i: usize = 0;
    while i < clips.len()
        invariant
            i <= clips@.len(),
            forall|j: int| 0 <= j < i ==> clips@[j].id != clip_id,
        decreases clips.len() - i,
    {
        if clips[i].id == clip_id {
            return Some(i);
        }
        i = i + 1;
    }
    assert forall|j: int| 0 <= j < clip_ids(clips@).len() implies clip_ids(clips@)[j] != clip_id by {}
    None
}

/// Playlist track (horizontal lane in the arrangement).
#[derive(Clone, Debug, PartialEq)]
pub struct PlaylistTrack {
    pub id: TrackId,
    pub name: String,
    /// Color for UI representation.
    pub color: String,
    /// Clips on this track.
    pub clips: Vec<PlaylistClip>,
    /// Mute state.
    pub muted: bool,
    /// Solo state.
    pub solo: bool,
    /// Track height (for UI).
    pub height: u32,
    /// Track index (for ordering).
    pub index: usize,
}

impl PlaylistTrack {
    /// Create a new playlist track: no clips, unmuted, default height, ordered by its id.
    pub fn new(id: TrackId, name: &str, color: &str) -> (r: PlaylistTrack)
        ensures
            r.id == id,
            r.name@ == name@,
            r.color@ == color@,
            r.clips@ == Seq::<PlaylistClip>::empty(),
            !r.muted,
            !r.solo,
            r.height == DEFAULT_TRACK_HEIGHT,
            r.index == id,
    {
        PlaylistTrack {
            id,
            name: String::from_str(name),
            color: String::from_str(color),
            clips: Vec::new(),
            muted: false,
            solo: false,
            height: DEFAULT_TRACK_HEIGHT,
            index: id,
        }
    }

    /// Add a clip to this track. It gets the smallest id that no clip of the
    /// track carries, so clip ids stay unique; while ids run from 0 without
    /// gaps, that is the number of clips before it.
    pub fn add_clip(&mut self, pattern_id: PatternId, start_beat: BeatTime, duration_beats: BeatTime) -> (r: usize)
        ensures
            is_least_free_clip_id(old(self).clips@, r),
            !clip_ids(old(self).clips@).contains(r),
            final(self).clips@ == old(self).clips@.push(
                PlaylistClip {
                    id: r,
                    pattern_id,
                    track_index: old(self).id,
                    start_beat,
                    duration_beats,
                    looped: true,
                    color: None,
                    name: None,
                    muted: false,
                },
            ),
            *final(self) == (PlaylistTrack { clips: final(self).clips, ..*old(self) }),
    {
        let id = least_free_clip_id(&self.clips);
        let clip = PlaylistClip::new(id, pattern_id, self.id, start_beat, duration_beats);
        self.clips.push(clip);
        id
    }

    /// Get the first clip with the given id.
    pub fn get_clip(&self, clip_id: ClipId) -> (r: Option<&PlaylistClip>)
        ensures
            match first_position(clip_ids(self.clips@), clip_id) {
                Some(i) => r == Some(&self.clips@[i]),
                None => r is None,
            },
    {
        let found = find_clip(&self.clips, clip_id);
        proof { lemma_first_position_unique(clip_ids(self.clips@), clip_id, found); }
        match found {
            Some(i) => Some(&self.clips[i]),
            None => None,
        }
    }

    /// Get the first clip with the given id, for editing.
    pub fn get_clip_mut(&mut self, clip_id: ClipId) -> (r: Option<&mut PlaylistClip>)
        ensures
            match first_position(clip_ids(old(self).clips@), clip_id) {
                Some(i) => r is Some && *r.unwrap() == old(self).clips@[i]
                    && final(self).clips@ == old(self).clips@.update(i, *final(r.unwrap())),
                None => r is None && final(self).clips@ == old(self).clips@,
            },
            *final(self) == (PlaylistTrack { clips: final(self).clips, ..*old(self) }),
    {
        let found = find_clip(&self.clips, clip_id);
        proof { lemma_first_position_unique(clip_ids(self.clips@), clip_id, found); }
        match found {
            Some(i) => Some(&mut self.clips[i]),
            None => None,
        }
    }

    /// Remove the first clip with the given id.
    pub fn remove_clip(&mut self, clip_id: ClipId) -> (r: Option<PlaylistClip>)
        ensures
            match first_position(clip_ids(old(self).clips@), clip_id) {
                Some(i) => r == Some(old(self).clips@[i]) && final(self).clips@ == old(self).clips@.remove(i),
                None => r is None && final(self).clips@ == old(self).clips@,
            },
            *final(self) == (PlaylistTrack { clips: final(self).clips, ..*old(self) }),
    {
        let found = find_clip(&self.clips, clip_id);
        proof { lemma_first_position_unique(clip_ids(self.clips@), clip_id, found); }
        match found {
            Some(i) => Some(self.clips.remove(i)),
            None => None,
        }
    }

    /// Move the first clip with the given id to a new start position;
    /// `None` when there is no such clip.
    pub fn move_clip(&mut self, clip_id: ClipId, new_start: BeatTime) -> (r: Option<()>)
        ensures
            match first_position(clip_ids(old(self).clips@), clip_id) {
                Some(i) => r is Some && final(self).clips@ == old(self).clips@.update(
                    i,
                    PlaylistClip { start_beat: new_start, ..old(self).clips@[i] },
                ),
                None => r is None && final(self).clips@ == old(self).clips@,
            },
            *final(self) == (PlaylistTrack { clips: final(self).clips, ..*old(self) }),
    {
        let found = find_clip(&self.clips, clip_id);
        proof { lemma_first_position_unique(clip_ids(self.clips@), clip_id, found); }
        match found {
            Some(i) => {
                self.clips[i].move_to(new_start);
                Some(())
            },
            None => None,
        }
    }

    /// Toggle mute state; returns the new state.
    pub fn toggle_mute(&mut self) -> (r: bool)
        ensures
            r == !old(self).muted,
            *final(self) == (PlaylistTrack { muted: r, ..*old(self) }),
    {
        self.muted = !self.muted;
        self.muted
    }

    /// Toggle solo state; returns the new state.
    pub fn toggle_solo(&mut self) -> (r: bool)
        ensures
            r == !old(self).solo,
            *final(self) == (PlaylistTrack { solo: r, ..*old(self) }),
    {
        self.solo = !self.solo;
        self.solo
    }

    /// Check if the track is effectively muted (considering solo states).
    pub fn is_effective_mute(&self, any_solo_active: bool) -> (r: bool)
        ensures
            r == effectively_muted(self.muted, self.solo, any_solo_active),
    {
        self.muted || (any_solo_active && !self.solo)
    }
}

impl Default for PlaylistTrack {
    fn default() -> (r: PlaylistTrack)
        ensures
            r.id == 0,
            r.name@ == "Track 1"@,
            r.color@ == "#3b82f6"@,
            r.clips@ == Seq::<PlaylistClip>::empty(),
            !r.muted,
            !r.solo,
            r.height == DEFAULT_TRACK_HEIGHT,
            r.index == 0,
    {
        PlaylistTrack::new(0, "Track 1", "#3b82f6")
    }
}

/// A first-occurrence search result is the first position.
pub proof fn lemma_first_position_unique<T>(s: Seq<T>, x: T, r: Option<usize>)
    requires
        is_first_position(s, x, r),
    ensures
        match first_position(s, x) {
            Some(i) => r == Some(i as usize) && 0 <= i < s.len(),
            None => r is None,
        },
{
    if let Some(i) = r {
        assert(s.contains(x));
        let k = choose|k: int| 0 <= k < s.len() && s[k] == x && forall|j: int| 0 <= j < k ==> s[j] != x;
        assert(k == i as int);
    }
}

/// Helper struct for track ordering.
#[derive(Clone, Debug)]
pub struct TrackOrder {
    pub track_ids: Vec<TrackId>,
}

/// The order after moving the track at position `from` to position `to`
/// (clamped to the end of the order).
pub open spec fn moved(ids: Seq<TrackId>, from: int, to: int) -> Seq<TrackId> {
    let rest = ids.remove(from);
    let at = if to < rest.len() { to } else { rest.len() as int };
    rest.insert(at, ids[from])
}

impl TrackOrder {
    /// An empty order.
    pub fn new() -> (r: TrackOrder)
        ensures
            r.track_ids@ == Seq::<TrackId>::empty(),
    {
        TrackOrder { track_ids: Vec::new() }
    }

    /// Append a track unless it is already in the order.
    pub fn add_track(&mut self, track_id: TrackId)
        ensures
            old(self).track_ids@.contains(track_id) ==> final(self).track_ids@ == old(self).track_ids@,
            !old(self).track_ids@.contains(track_id) ==> final(self).track_ids@ == old(self).track_ids@.push(track_id),
    {
        let found = find_first(self.track_ids.as_slice(), track_id);
        if found.is_none() {
            self.track_ids.push(track_id);
        }
    }

    /// Remove every occurrence of a track.
    pub fn remove_track(&mut self, track_id: TrackId)
        ensures
            final(self).track_ids@ == old(self).track_ids@.filter(|id: TrackId| id != track_id),
    {
        let ghost pred = |id: TrackId| id != track_id;
        let mut kept: Vec<TrackId> = Vec::new();
        let n = self.track_ids.len();
        let mut i: usize = 0;
        while i < n
            invariant
                n == self.track_ids@.len(),
                i <= n,
                pred == (|id: TrackId| id != track_id),
                kept@ == self.track_ids@.take(i as int).filter(pred),
            decreases n - i,
        {
            let id = self.track_ids[i];
            let ghost next = self.track_ids@.take(i as int + 1);
            assert(next.drop_last() =~= self.track_ids@.take(i as int));
            assert(next.last() == id);
            assert(next.filter(pred) == (if pred(id) {
                next.drop_last().filter(pred).push(id)
            } else {
                next.drop_last().filter(pred)
            })) by {
                reveal_with_fuel(Seq::<TrackId>::filter, 2);
            }
            if id != track_id {
                kept.push(id);
            }
            i = i + 1;
        }
        assert(self.track_ids@.take(n as int) =~= self.track_ids@);
        self.track_ids = kept;
    }

    /// Move a track to a new position (clamped to the end); no change when
    /// the track is not in the order.
    pub fn move_track(&mut self, track_id: TrackId, new_index: usize)
        ensures
            match first_position(old(self).track_ids@, track_id) {
                Some(i) => final(self).track_ids@ == moved(old(self).track_ids@, i, new_index as int),
                None => final(self).track_ids@ == old(self).track_ids@,
            },
    {
        let found = find_first(self.track_ids.as_slice(), track_id);
        proof { lemma_first_position_unique(self.track_ids@, track_id, found); }
        if let Some(current_index) = found {
            let id = self.track_ids.remove(current_index);
            let at = if new_index < self.track_ids.len() { new_index } else { self.track_ids.len() };
            self.track_ids.insert(at, id);
        }
    }

    /// Position of a track in the order.
    pub fn index_of(&self, track_id: TrackId) -> (r: Option<usize>)
        ensures
            r == (match first_position(self.track_ids@, track_id) {
                Some(i) => Some(i as usize),
                None => None,
            }),
    {
        let found = find_first(self.track_ids.as_slice(), track_id);
        proof { lemma_first_position_unique(self.track_ids@, track_id, found); }
        found
    }
}

impl Default for TrackOrder {
    fn default() -> (r: TrackOrder)
        ensures
            r.track_ids@ == Seq::<TrackId>::empty(),
    {
        TrackOrder::new()
    }
}

/// `a` holds what `b` holds: the same fields, and clips with the same contents.
pub open spec fn same_track(a: PlaylistTrack, b: PlaylistTrack) -> bool {
    &&& a == (PlaylistTrack { clips: a.clips, ..b })
    &&& a.clips@ == b.clips@
}

/// A copy of a list of clips.
fn copy_clips(clips: &Vec<PlaylistClip>) -> (r: Vec<PlaylistClip>)
    ensures
        r@ == clips@,
{
    let mut r: Vec<PlaylistClip> = Vec::new();
    let mut i: usize = 0;
    while i < clips.len()
        invariant
            i <= clips@.len(),
            r@ == clips@.take(i as int),
        decreases clips.len() - i,
    {
        r.push(clips[i].copy());
        i = i + 1;
        assert(r@ =~= clips@.take(i as int));
    }
    assert(clips@.take(clips@.len() as int) =~= clips@);
    r
}

impl PlaylistTrack {
    /// A copy of the track and its clips.
    pub fn copy(&self) -> (r: PlaylistTrack)
        ensures
            same_track(r, *self),
    {
        PlaylistTrack {
            name: self.name.clone(),
            color: self.color.clone(),
            clips: copy_clips(&self.clips),
            ..*self
        }
    }
}

} // verus!

verus! {

/// Moving a track within an order without repeated tracks keeps the same
/// tracks, keeps them unrepeated, and puts the moved track at the requested
/// position, clamped to the last one.
pub proof fn lemma_move_track_places_track(ids: Seq<TrackId>, from: int, to: int)
    requires
        ids.no_duplicates(),
        0 <= from < ids.len(),
        0 <= to,
    ensures
        moved(ids, from, to).len() == ids.len(),
        moved(ids, from, to).to_multiset() == ids.to_multiset(),
        moved(ids, from, to).no_duplicates(),
        first_position(moved(ids, from, to), ids[from]) == Some(
            if to < ids.len() { to } else { ids.len() - 1 },
        ),
{
    let x = ids[from];
    let rest = ids.remove(from);
    let at = if to < rest.len() { to } else { rest.len() as int };
    let m = rest.insert(at, x);
    assert(ids =~= rest.insert(from, x));
    lemma_insert_multiset(rest, from, x);
    lemma_insert_multiset(rest, at, x);
    lemma_remove_keeps_unique(ids, from);
    lemma_insert_keeps_unique(rest, at, x);
    assert(m[at] == x);
    assert(m.contains(x));
    let k = choose|k: int| 0 <= k < m.len() && m[k] == x && forall|j: int| 0 <= j < k ==> m[j] != x;
    assert(k == at);
}

/// Removing one element of an unrepeated sequence leaves it unrepeated and
/// without that element.
proof fn lemma_remove_keeps_unique(ids: Seq<TrackId>, from: int)
    requires
        ids.no_duplicates(),
        0 <= from < ids.len(),
    ensures
        ids.remove(from).no_duplicates(),
        !ids.remove(from).contains(ids[from]),
{
    let rest = ids.remove(from);
    let x = ids[from];
    assert(!rest.contains(x)) by {
        if rest.contains(x) {
            let k = choose|k: int| 0 <= k < rest.len() && rest[k] == x;
            if k < from {
                assert(ids[k] == x);
            } else {
                assert(ids[k + 1] == x);
            }
        }
    }
    assert forall|a: int, b: int| 0 <= a < rest.len() && 0 <= b < rest.len() && a != b implies rest[a] != rest[b] by {
        let a2 = if a < from { a } else { a + 1 };
        let b2 = if b < from { b } else { b + 1 };
        assert(ids[a2] == rest[a] && ids[b2] == rest[b]);
    }
}

/// Inserting an element missing from an unrepeated sequence leaves it unrepeated.
proof fn lemma_insert_keeps_unique(rest: Seq<TrackId>, at: int, x: TrackId)
    requires
        rest.no_duplicates(),
        !rest.contains(x),
        0 <= at <= rest.len(),
    ensures
        rest.insert(at, x).no_duplicates(),
{
    let m = rest.insert(at, x);
    assert forall|a: int, b: int| 0 <= a < m.len() && 0 <= b < m.len() && a != b implies m[a] != m[b] by {
        if a != at && b != at {
            let a2 = if a < at { a } else { a - 1 };
            let b2 = if b < at { b } else { b - 1 };
            assert(rest[a2] == m[a] && rest[b2] == m[b]);
        } else if a == at {
            let b2 = if b < at { b } else { b - 1 };
            assert(rest[b2] == m[b]);
        } else {
            let a2 = if a < at { a } else { a - 1 };
            assert(rest[a2] == m[a]);
        }
    }
}

/// Multiset of a sequence after inserting one element.
proof fn lemma_insert_multiset(s: Seq<TrackId>, at: int, x: TrackId)
    requires
        0 <= at <= s.len(),
    ensures
        s.insert(at, x).to_multiset() == s.to_multiset().insert(x),
{
    broadcast use vstd::seq_lib::group_to_multiset_ensures;
    let left = s.subrange(0, at);
    let right = s.subrange(at, s.len() as int);
    assert(s =~= left + right);
    assert(s.insert(at, x) =~= left + (seq![x] + right));
    vstd::seq_lib::lemma_multiset_commutative(left, right);
    vstd::seq_lib::lemma_multiset_commutative(left, seq![x] + right);
    vstd::seq_lib::lemma_multiset_commutative(seq![x], right);
    assert(seq![x].to_multiset() =~= Multiset::empty().insert(x)) by {
        assert(seq![x] =~= Seq::<TrackId>::empty().push(x));
    }
}

/// Adding a track keeps an order free of repeated tracks, and the track is
/// then in the order.
pub proof fn lemma_add_track_keeps_unique(ids: Seq<TrackId>, track_id: TrackId)
    requires
        ids.no_duplicates(),
    ensures
        (if ids.contains(track_id) { ids } else { ids.push(track_id) }).no_duplicates(),
        (if ids.contains(track_id) { ids } else { ids.push(track_id) }).contains(track_id),
{
    if !ids.contains(track_id) {
        let s = ids.push(track_id);
        assert(s[ids.len() as int] == track_id);
        assert forall|a: int, b: int| 0 <= a < s.len() && 0 <= b < s.len() && a != b implies s[a] != s[b] by {
            if a < ids.len() && b < ids.len() {
                assert(s[a] == ids[a] && s[b] == ids[b]);
            } else if a < ids.len() {
                assert(s[a] == ids[a]);
            } else {
                assert(s[b] == ids[b]);
            }
        }
    }
}

/// After removing a track it is no longer in the order, and every other
/// track that was there still is.
pub proof fn lemma_remove_track_removes(ids: Seq<TrackId>, track_id: TrackId, other: TrackId)
    requires
        other != track_id,
    ensures
        !ids.filter(|id: TrackId| id != track_id).contains(track_id),
        ids.filter(|id: TrackId| id != track_id).contains(other) == ids.contains(other),
{
    let pred = |id: TrackId| id != track_id;
    let f = ids.filter(pred);
    broadcast use vstd::seq_lib::group_filter_ensures;
    if f.contains(track_id) {
        let k = choose|k: int| 0 <= k < f.len() && f[k] == track_id;
        ids.lemma_filter_pred(pred, k);
    }
    if ids.contains(other) {
        let k = choose|k: int| 0 <= k < ids.len() && ids[k] == other;
        ids.lemma_filter_contains(pred, k);
    }
    if f.contains(other) {
        let k = choose|k: int| 0 <= k < f.len() && f[k] == other;
        ids.lemma_filter_contains_rev(pred, other);
    }
}

} // verus!

verus! {

/// The clip that `add_clip` appends carries an id no other clip of the
/// track has, so `get_clip` finds it under the id returned, and ids that
/// were unique stay unique.
pub proof fn lemma_added_clip_found(clips: Seq<PlaylistClip>, clip: PlaylistClip)
    requires
        !clip_ids(clips).contains(clip.id),
        clips.len() < usize::MAX,
    ensures
        first_position(clip_ids(clips.push(clip)), clip.id) == Some(clips.len() as int),
        clip_ids(clips).no_duplicates() ==> clip_ids(clips.push(clip)).no_duplicates(),
{
    let ids = clip_ids(clips.push(clip));
    let n = clips.len();
    assert(ids[n as int] == clip.id);
    assert forall|j: int| 0 <= j < n implies ids[j] != clip.id by {
        assert(clips.push(clip)[j] == clips[j]);
        assert(clip_ids(clips)[j] == clips[j].id);
    }
    assert(is_first_position(ids, clip.id, Some(n as usize)));
    lemma_first_position_unique(ids, clip.id, Some(n as usize));
    if clip_ids(clips).no_duplicates() {
        assert forall|i: int, j: int| 0 <= i < ids.len() && 0 <= j < ids.len() && i != j implies ids[i] != ids[j] by {
            if i < n && j < n {
                assert(ids[i] == clip_ids(clips)[i]);
                assert(ids[j] == clip_ids(clips)[j]);
            }
        }
    }
}

/// Mute and solo of a playlist track: a muted track is silenced whatever
/// the solos; while no track is soloed, an unmuted track plays; while some
/// track is soloed, an unmuted track plays exactly when it is soloed itself.
pub proof fn lemma_track_mute_and_solo(muted: bool, solo: bool, any_solo_active: bool)
    ensures
        muted ==> effectively_muted(muted, solo, any_solo_active),
        !muted && !any_solo_active ==> !effectively_muted(muted, solo, any_solo_active),
        !muted && any_solo_active ==> (effectively_muted(muted, solo, any_solo_active) <==> !solo),
{
}

} // verus!
