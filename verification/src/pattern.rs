//! Patterns: note data for the piano roll and step data for the sequencer.
use vstd::prelude::*;
use vstd::string::*;
use std::collections::HashMap;
use std::collections::hash_map::Entry;
use crate::{BeatTime, Float64, Id};
use crate::channel::ChannelId;
use crate::note::{Note, Pitch, Velocity};

verus! {

broadcast use vstd::std_specs::hash::group_hash_axioms;

/// Unique identifier for a pattern.
pub type PatternId = Id;

/// Bit pattern of the default pattern length, 4.0 beats (one bar of 4/4).
pub const DEFAULT_LENGTH_BITS: u64 = 0x4010_0000_0000_0000;

/// Default number of steps for the step sequencer.
pub const DEFAULT_STEP_COUNT: usize = 16;

/// A pattern contains note data for step sequencing or piano roll.
#[derive(Clone, Debug, PartialEq)]
pub struct Pattern {
    pub id: PatternId,
    pub name: String,
    /// Color for UI representation (hex string like "#3b82f6").
    pub color: String,
    /// Notes for this pattern.
    pub notes: Vec<Note>,
    /// Step sequencer data: channel id -> step on/off.
    pub step_data: HashMap<ChannelId, Vec<bool>>,
    /// Length of the pattern in beats.
    pub length_beats: BeatTime,
    /// Default number of steps for the step sequencer.
    pub step_count: usize,
}

/// The steps `count` fresh steps, all off.
pub open spec fn blank_steps(count: nat) -> Seq<bool> {
    Seq::new(count, |i: int| false)
}

/// `steps` with step `step` flipped, when it exists.
pub open spec fn toggled(steps: Seq<bool>, step: int) -> Seq<bool> {
    if 0 <= step < steps.len() {
        steps.update(step, !steps[step])
    } else {
        steps
    }
}

/// `steps` with step `step` set to `active`, when it exists.
pub open spec fn with_step(steps: Seq<bool>, step: int, active: bool) -> Seq<bool> {
    if 0 <= step < steps.len() {
        steps.update(step, active)
    } else {
        steps
    }
}

impl Pattern {
    /// Step data by channel, each row by its contents.
    pub open spec fn steps(self) -> Map<ChannelId, Seq<bool>> {
        self.step_data@.map_values(|row: Vec<bool>| row@)
    }

    /// The step row of `channel_id`, or a blank row of `step_count` steps
    /// when the channel has none yet.
    pub open spec fn row_or_blank(self, channel_id: ChannelId) -> Seq<bool> {
        if self.steps().contains_key(channel_id) {
            self.steps()[channel_id]
        } else {
            blank_steps(self.step_count as nat)
        }
    }

    /// Whether `step` of `channel_id` is on.
    pub open spec fn step_on(self, channel_id: ChannelId, step: int) -> bool {
        self.steps().contains_key(channel_id) && 0 <= step < self.steps()[channel_id].len()
            && self.steps()[channel_id][step]
    }

    /// A pattern as `new` builds it: the given identity, no notes, no
    /// steps, four beats long, sixteen steps.
    pub open spec fn fresh(self, id: PatternId, name: Seq<char>, color: Seq<char>) -> bool {
        &&& self.id == id
        &&& self.name@ == name
        &&& self.color@ == color
        &&& self.notes@ == Seq::<Note>::empty()
        &&& self.steps() == Map::<ChannelId, Seq<bool>>::empty()
        &&& self.length_beats.bits == DEFAULT_LENGTH_BITS
        &&& self.step_count == DEFAULT_STEP_COUNT
    }

    /// Create a new pattern with default settings: no notes, no steps,
    /// four beats long, sixteen steps.
    pub fn new(id: PatternId, name: &str, color: &str) -> (r: Pattern)
        ensures
            r.fresh(id, name@, color@),
    {
        let r = Pattern {
            id,
            name: String::from_str(name),
            color: String::from_str(color),
            notes: Vec::new(),
            step_data: HashMap::new(),
            length_beats: Float64 { bits: DEFAULT_LENGTH_BITS },
            step_count: DEFAULT_STEP_COUNT,
        };
        assert(r.steps() =~= Map::<ChannelId, Seq<bool>>::empty());
        r
    }

    /// Add a note to the pattern; returns the note just added, for editing.
    pub fn add_note(&mut self, pitch: Pitch, velocity: Velocity, start: BeatTime, duration: BeatTime) -> (r: &mut Note)
        ensures
            *r == (Note { pitch, velocity, start_beat: start, duration_beats: duration }),
            final(self).notes@ == old(self).notes@.push(*final(r)),
            final(self).id == old(self).id,
            final(self).name == old(self).name,
            final(self).color == old(self).color,
            final(self).step_data == old(self).step_data,
            final(self).length_beats == old(self).length_beats,
            final(self).step_count == old(self).step_count,
    {
        self.notes.push(Note { pitch, velocity, start_beat: start, duration_beats: duration });
        self.notes.last_mut().unwrap()
    }

    /// A copy of this pattern under a new id and name.
    pub fn copy_as(&self, id: PatternId, name: String) -> (r: Pattern)
        ensures
            r == (Pattern { id, name, notes: r.notes, step_data: r.step_data, color: r.color, ..*self }),
            r.color@ == self.color@,
            r.notes@ == self.notes@,
            r.steps() == self.steps(),
    {
        let r = Pattern {
            id,
            name,
            color: self.color.clone(),
            notes: copy_notes(&self.notes),
            step_data: self.step_data.clone(),
            length_beats: self.length_beats,
            step_count: self.step_count,
        };
        assert(r.steps() =~= self.steps());
        r
    }

    /// Remove the note at `index`, if there is one.
    pub fn remove_note(&mut self, index: usize) -> (r: Option<Note>)
        ensures
            index < old(self).notes@.len() ==> r == Some(old(self).notes@[index as int])
                && final(self).notes@ == old(self).notes@.remove(index as int),
            index >= old(self).notes@.len() ==> r is None && final(self).notes@ == old(self).notes@,
            final(self).id == old(self).id,
            final(self).name == old(self).name,
            final(self).color == old(self).color,
            final(self).step_data == old(self).step_data,
            final(self).length_beats == old(self).length_beats,
            final(self).step_count == old(self).step_count,
    {
        if index < self.notes.len() {
            Some(self.notes.remove(index))
        } else {
            None
        }
    }

    /// The step row of a channel, created blank (all off, `step_count`
    /// steps) if the channel has none yet.
    pub fn get_or_create_steps(&mut self, channel_id: ChannelId) -> (r: &mut Vec<bool>)
        ensures
            r@ == old(self).row_or_blank(channel_id),
            final(self).steps() == old(self).steps().insert(channel_id, final(r)@),
            final(self).id == old(self).id,
            final(self).name == old(self).name,
            final(self).color == old(self).color,
            final(self).notes == old(self).notes,
            final(self).length_beats == old(self).length_beats,
            final(self).step_count == old(self).step_count,
    {
        let blank = blank_row(self.step_count);
        self.step_data.entry(channel_id).or_insert(blank)
    }

    /// Toggle a step for a specific channel; returns the new state of the
    /// step (false when the step is beyond the row).
    pub fn toggle_step(&mut self, channel_id: ChannelId, step: usize) -> (r: bool)
        ensures
            r == (step < old(self).row_or_blank(channel_id).len() && !old(self).row_or_blank(channel_id)[step as int]),
            final(self).steps() == old(self).steps().insert(
                channel_id,
                toggled(old(self).row_or_blank(channel_id), step as int),
            ),
            final(self).id == old(self).id,
            final(self).name == old(self).name,
            final(self).color == old(self).color,
            final(self).notes == old(self).notes,
            final(self).length_beats == old(self).length_beats,
            final(self).step_count == old(self).step_count,
    {
        let steps = self.get_or_create_steps(channel_id);
        if step < steps.len() {
            let flipped = !steps[step];
            steps.set(step, flipped);
            flipped
        } else {
            false
        }
    }

    /// Set the state of a step for a specific channel (no change when the
    /// step is beyond the row).
    pub fn set_step(&mut self, channel_id: ChannelId, step: usize, active: bool)
        ensures
            final(self).steps() == old(self).steps().insert(
                channel_id,
                with_step(old(self).row_or_blank(channel_id), step as int, active),
            ),
            final(self).id == old(self).id,
            final(self).name == old(self).name,
            final(self).color == old(self).color,
            final(self).notes == old(self).notes,
            final(self).length_beats == old(self).length_beats,
            final(self).step_count == old(self).step_count,
    {
        let steps = self.get_or_create_steps(channel_id);
        if step < steps.len() {
            steps.set(step, active);
        }
    }

    /// Whether a step is active.
    pub fn is_step_active(&self, channel_id: ChannelId, step: usize) -> (r: bool)
        ensures
            r == self.step_on(channel_id, step as int),
    {
        match self.step_data.get(&channel_id) {
            Some(steps) => {
                if step < steps.len() {
                    steps[step]
                } else {
                    false
                }
            },
            None => false,
        }
    }

    /// Remove every note.
    pub fn clear_notes(&mut self)
        ensures
            *final(self) == (Pattern { notes: final(self).notes, ..*old(self) }),
            final(self).notes@ == Seq::<Note>::empty(),
    {
        self.notes.clear();
    }

    /// Remove all step data.
    pub fn clear_steps(&mut self)
        ensures
            *final(self) == (Pattern { step_data: final(self).step_data, ..*old(self) }),
            final(self).steps() == Map::<ChannelId, Seq<bool>>::empty(),
    {
        self.step_data.clear();
        assert(self.steps() =~= Map::<ChannelId, Seq<bool>>::empty());
    }

    /// Transpose every note by a number of semitones, keeping pitches in 0..=127.
    pub fn transpose(&mut self, semitones: i8)
        ensures
            final(self).notes@.len() == old(self).notes@.len(),
            forall|i: int| 0 <= i < old(self).notes@.len() ==> #[trigger] final(self).notes@[i] == (Note {
                pitch: transposed_pitch(old(self).notes@[i].pitch, semitones),
                ..old(self).notes@[i]
            }),
            *final(self) == (Pattern { notes: final(self).notes, ..*old(self) }),
    {
        let n = self.notes.len();
        let mut i: usize = 0;
        while i < n
            invariant
                n == old(self).notes@.len(),
                self.notes@.len() == n,
                i <= n,
                forall|j: int| 0 <= j < i ==> #[trigger] self.notes@[j] == (Note {
                    pitch: transposed_pitch(old(self).notes@[j].pitch, semitones),
                    ..old(self).notes@[j]
                }),
                forall|j: int| i <= j < n ==> #[trigger] self.notes@[j] == old(self).notes@[j],
                *self == (Pattern { notes: self.notes, ..*old(self) }),
            decreases n - i,
        {
            let note = self.notes[i];
            let shifted = (note.pitch as i16 + semitones as i16);
            let clamped: i16 = if shifted < 0 { 0 } else if shifted > 127 { 127 } else { shifted };
            self.notes.set(i, Note { pitch: clamped as u8, ..note });
            i = i + 1;
        }
    }
}

/// Pitch after transposing by `semitones`, clamped to the MIDI range.
pub open spec fn transposed_pitch(pitch: Pitch, semitones: i8) -> Pitch {
    let shifted = pitch + semitones;
    if shifted < 0 {
        0
    } else if shifted > 127 {
        127
    } else {
        shifted as u8
    }
}

/// An element-for-element copy of a list of notes.
fn copy_notes(notes: &Vec<Note>) -> (r: Vec<Note>)
    ensures
        r@ == notes@,
{
    let mut r: Vec<Note> = Vec::new();
    let mut i: usize = 0;
    while i < notes.len()
        invariant
            i <= notes@.len(),
            r@ == notes@.subrange(0, i as int),
        decreases notes.len() - i,
    {
        r.push(notes[i]);
        i = i + 1;
        assert(r@ =~= notes@.subrange(0, i as int));
    }
    assert(r@ =~= notes@);
    r
}

/// A fresh step row of `count` steps, all off.
fn blank_row(count: usize) -> (r: Vec<bool>)
    ensures
        r@ == blank_steps(count as nat),
{
    let mut r: Vec<bool> = Vec::new();
    let mut i: usize = 0;
    while i < count
        invariant
            i <= count,
            r@ == blank_steps(i as nat),
        decreases count - i,
    {
        r.push(false);
        i = i + 1;
        assert(r@ =~= blank_steps(i as nat));
    }
    r
}

impl Default for Pattern {
    fn default() -> (r: Pattern)
        ensures
            r.fresh(0, "Pattern 1"@, "#3b82f6"@),
    {
        Pattern::new(0, "Pattern 1", "#3b82f6")
    }
}

/// `a` holds what `b` holds: the same fields, the same notes and the same
/// step rows.
pub open spec fn same_pattern(a: Pattern, b: Pattern) -> bool {
    &&& a == (Pattern { notes: a.notes, step_data: a.step_data, ..b })
    &&& a.notes@ == b.notes@
    &&& a.steps() == b.steps()
}

/// A copy of a step row.
fn copy_row(row: &Vec<bool>) -> (r: Vec<bool>)
    ensures
        r@ == row@,
{
    let mut r: Vec<bool> = Vec::new();
    let mut i: usize = 0;
    while i < row.len()
        invariant
            i <= row@.len(),
            r@ == row@.take(i as int),
        decreases row.len() - i,
    {
        r.push(row[i]);
        i = i + 1;
        assert(r@ =~= row@.take(i as int));
    }
    assert(row@.take(row@.len() as int) =~= row@);
    r
}

/// A copy of the step rows of a pattern.
fn copy_steps(steps: &HashMap<ChannelId, Vec<bool>>) -> (r: HashMap<ChannelId, Vec<bool>>)
    ensures
        r@.map_values(|row: Vec<bool>| row@) == steps@.map_values(|row: Vec<bool>| row@),
{
    let mut r: HashMap<ChannelId, Vec<bool>> = HashMap::new();
    let ghost dom = steps@.dom();
    for k in it: steps.keys()
        invariant
            dom == steps@.dom(),
            it.seq().unref().to_set() == dom,
            forall|c: ChannelId| #[trigger] r@.contains_key(c) ==> steps@.contains_key(c) && r@[c]@ == steps@[c]@,
            forall|c: ChannelId| #[trigger] dom.contains(c) ==> r@.contains_key(c)
                || exists|j: int| it.index() <= j < it.seq().len() && *it.seq()[j] == c,
    {
        match steps.get(k) {
            Some(row) => {
                r.insert(*k, copy_row(row));
            },
            None => {},
        }
    }
    proof {
        assert forall|c: ChannelId| steps@.contains_key(c) implies r@.contains_key(c) by {
            assert(dom.contains(c));
        }
        assert(r@.map_values(|row: Vec<bool>| row@) =~= steps@.map_values(|row: Vec<bool>| row@));
    }
    r
}

impl Pattern {
    /// A copy of the pattern, its notes and its step rows.
    pub fn copy(&self) -> (r: Pattern)
        ensures
            same_pattern(r, *self),
    {
        Pattern {
            name: self.name.clone(),
            color: self.color.clone(),
            notes: copy_notes(&self.notes),
            step_data: copy_steps(&self.step_data),
            ..*self
        }
    }
}

} // verus!

verus! {

/// Toggling the same step twice leaves every step of every channel as it
/// was: each row reads as before, and no step is on that was not.
pub proof fn lemma_toggle_step_twice(p: Pattern, once: Pattern, twice: Pattern, channel_id: ChannelId, step: int)
    requires
        once.step_count == p.step_count,
        once.steps() == p.steps().insert(channel_id, toggled(p.row_or_blank(channel_id), step)),
        twice.step_count == once.step_count,
        twice.steps() == once.steps().insert(channel_id, toggled(once.row_or_blank(channel_id), step)),
    ensures
        forall|c: ChannelId| #[trigger] twice.row_or_blank(c) == p.row_or_blank(c),
        forall|c: ChannelId, s: int| #[trigger] twice.step_on(c, s) == p.step_on(c, s),
{
    let row = p.row_or_blank(channel_id);
    assert(once.row_or_blank(channel_id) == toggled(row, step));
    assert(toggled(toggled(row, step), step) =~= row);
    assert forall|c: ChannelId, s: int| #[trigger] twice.step_on(c, s) == p.step_on(c, s) by {
        if c == channel_id && !p.steps().contains_key(c) {
            assert(twice.steps()[c] == blank_steps(p.step_count as nat));
        }
    }
}

/// Transposing a pitch by `semitones` and back by `-semitones` restores it
/// whenever both lie in the MIDI range 0..=127, so `transpose(n)` followed
/// by `transpose(-n)` restores every note that the first shift kept in range.
pub proof fn lemma_transpose_round_trip(pitch: Pitch, semitones: i8)
    requires
        pitch <= 127,
        semitones > i8::MIN,
        0 <= pitch + semitones <= 127,
    ensures
        transposed_pitch(transposed_pitch(pitch, semitones), (-semitones) as i8) == pitch,
{
    let back = (-semitones) as i8;
    assert(back == -semitones) by (bit_vector)
        requires
            semitones > i8::MIN,
            back == (-semitones) as i8,
    ;
}

/// Removing the note that `add_note` just appended gives back the notes as
/// they were before.
pub proof fn lemma_remove_note_undoes_add(notes: Seq<Note>, note: Note)
    ensures
        notes.push(note).remove(notes.len() as int) == notes,
{
    assert(notes.push(note).remove(notes.len() as int) =~= notes);
}

} // verus!
