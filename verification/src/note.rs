//! Notes and MIDI pitch names.
use vstd::prelude::*;
use crate::text::{ascii_lower, decimal, digit_char, eq_ignore_ascii_case, push_char, push_decimal, chars_of, chars_eq_ignore_ascii_case};
use crate::BeatTime;

verus! {

/// MIDI note number (0-127, where 60 is middle C).
pub type Pitch = u8;

/// MIDI velocity (0-127).
pub type Velocity = u8;

/// The twelve pitch-class names, starting at C.
pub open spec fn note_names() -> Seq<Seq<char>> {
    seq![
        seq!['C'], seq!['C', '#'], seq!['D'], seq!['D', '#'], seq!['E'], seq!['F'],
        seq!['F', '#'], seq!['G'], seq!['G', '#'], seq!['A'], seq!['A', '#'], seq!['B'],
    ]
}

/// Scientific name of a pitch: its pitch-class name followed by its octave
/// (middle C, pitch 60, is "C4").
pub open spec fn pitch_name(pitch: int) -> Seq<char> {
    note_names()[pitch % 12] + decimal(pitch / 12 - 1)
}

} // verus!

verus! {

/// The octave value of a single octave character: a decimal digit.
pub open spec fn octave_digit(c: char) -> Option<int> {
    if '0' <= c <= '9' {
        Some(c as int - 48)
    } else {
        None
    }
}

/// Index of the first pitch-class name, from `i` on, equal to `part` up to ASCII case.
pub open spec fn note_index_from(part: Seq<char>, i: int) -> Option<int>
    decreases 12 - i,
{
    if i < 0 || i >= 12 {
        None
    } else if eq_ignore_ascii_case(part, note_names()[i]) {
        Some(i)
    } else {
        note_index_from(part, i + 1)
    }
}

/// Octave and pitch-class index named by `name`: a pitch-class name (any
/// ASCII case) followed by a single octave digit.
pub open spec fn parse_note_name(name: Seq<char>) -> Option<(int, int)> {
    if name.len() < 2 {
        None
    } else {
        match octave_digit(name.last()) {
            None => None,
            Some(octave) => match note_index_from(name.drop_last(), 0) {
                None => None,
                Some(index) => Some((octave, index)),
            },
        }
    }
}

/// The MIDI pitch that `name` denotes: the pitch of its pitch class and
/// octave, when that lies within the MIDI range 0..=127.
pub open spec fn name_pitch(name: Seq<char>) -> Option<int> {
    match parse_note_name(name) {
        Some((octave, index)) => if (octave + 1) * 12 + index <= 127 {
            Some((octave + 1) * 12 + index)
        } else {
            None
        },
        None => None,
    }
}

/// Appends the pitch-class name of `index` to `s`.
pub(crate) fn push_note_name(s: &mut String, index: u8)
    requires
        index < 12,
    ensures
        final(s)@ == old(s)@ + note_names()[index as int],
{
    let letter = if index <= 1 {
        'C'
    } else if index <= 3 {
        'D'
    } else if index == 4 {
        'E'
    } else if index <= 6 {
        'F'
    } else if index <= 8 {
        'G'
    } else if index <= 10 {
        'A'
    } else {
        'B'
    };
    push_char(s, letter);
    let sharp = index == 1 || index == 3 || index == 6 || index == 8 || index == 10;
    if sharp {
        push_char(s, '#');
    }
    assert(final(s)@ =~= old(s)@ + note_names()[index as int]);
}

/// The pitch-class name of `index` as characters.
fn note_name_chars(index: u8) -> (r: Vec<char>)
    requires
        index < 12,
    ensures
        r@ == note_names()[index as int],
{
    let mut s = String::new();
    push_note_name(&mut s, index);
    let r = chars_of(s.as_str());
    assert(r@ =~= note_names()[index as int]);
    r
}

/// Convert a MIDI pitch to its note name ("C4" for 60, "C#4" for 61).
pub fn pitch_to_name(pitch: Pitch) -> (r: String)
    ensures
        r@ == pitch_name(pitch as int),
{
    let mut s = String::new();
    push_note_name(&mut s, pitch % 12);
    let octave: i32 = (pitch / 12) as i32 - 1;
    push_decimal(&mut s, octave);
    assert(s@ =~= pitch_name(pitch as int));
    s
}

/// Convert a note name ("C4", "c#4", "A4") to its MIDI pitch; `None` when the
/// name is not a pitch-class name followed by a single octave digit, or when
/// it names a pitch above the MIDI range (G#9 through B9).
pub fn name_to_pitch(name: &str) -> (r: Option<Pitch>)
    ensures
        r == (match name_pitch(name@) {
            Some(pitch) => Some(pitch as u8),
            None => None,
        }),
        r matches Some(p) ==> p <= 127,
{
    let chars = chars_of(name);
    let n = chars.len();
    if n < 2 {
        return None;
    }
    let last = chars[n - 1];
    if !('0' <= last && last <= '9') {
        return None;
    }
    let octave: u8 = (last as u8) - 48;
    let part = &chars[0..n - 1];
    assert(part@ =~= name@.drop_last());
    let mut index: u8 = 0;
    while index < 12
        invariant
            index <= 12,
            name@.len() >= 2,
            part@ == name@.drop_last(),
            octave_digit(name@.last()) == Some(octave as int),
            octave <= 9,
            note_index_from(part@, 0) == note_index_from(part@, index as int),
        decreases 12 - index,
    {
        let candidate = note_name_chars(index);
        if chars_eq_ignore_ascii_case(part, candidate.as_slice()) {
            let pitch = (octave + 1) * 12 + index;
            if pitch > 127 {
                return None;
            }
            return Some(pitch);
        }
        index = index + 1;
    }
    None
}

/// A musical note in a pattern.
#[derive(Clone, Copy, Debug, PartialEq, Eq, Structural)]
pub struct Note {
    /// MIDI note number (0-127, where 60 is middle C).
    pub pitch: Pitch,
    /// Velocity (0-127).
    pub velocity: Velocity,
    /// Position in beats from pattern start.
    pub start_beat: BeatTime,
    /// Duration in beats.
    pub duration_beats: BeatTime,
}

impl Note {
    /// Create a new note.
    pub fn new(pitch: Pitch, velocity: Velocity, start_beat: BeatTime, duration_beats: BeatTime) -> (r: Note)
        ensures
            r == (Note { pitch, velocity, start_beat, duration_beats }),
    {
        Note { pitch, velocity, start_beat, duration_beats }
    }

    /// The note name of this note's pitch (e.g. "C4", "F#5").
    pub fn name(&self) -> (r: String)
        ensures
            r@ == pitch_name(self.pitch as int),
    {
        pitch_to_name(self.pitch)
    }
}

} // verus!

verus! {

/// Lower-cased first character and length identify a pitch-class name.
proof fn lemma_note_name_key(i: int)
    requires
        0 <= i < 12,
    ensures
        note_names()[i].len() >= 1,
        (ascii_lower(note_names()[i][0]) as int) * 4 + note_names()[i].len() == 4 * (if i <= 1 {
            99int
        } else if i <= 3 {
            100
        } else if i == 4 {
            101
        } else if i <= 6 {
            102
        } else if i <= 8 {
            103
        } else if i <= 10 {
            97
        } else {
            98
        }) + (if i == 1 || i == 3 || i == 6 || i == 8 || i == 10 {
            2int
        } else {
            1int
        }),
{
    let names = note_names();
    if i == 0 { assert(names[0] == seq!['C']); }
    else if i == 1 { assert(names[1] == seq!['C', '#']); }
    else if i == 2 { assert(names[2] == seq!['D']); }
    else if i == 3 { assert(names[3] == seq!['D', '#']); }
    else if i == 4 { assert(names[4] == seq!['E']); }
    else if i == 5 { assert(names[5] == seq!['F']); }
    else if i == 6 { assert(names[6] == seq!['F', '#']); }
    else if i == 7 { assert(names[7] == seq!['G']); }
    else if i == 8 { assert(names[8] == seq!['G', '#']); }
    else if i == 9 { assert(names[9] == seq!['A']); }
    else if i == 10 { assert(names[10] == seq!['A', '#']); }
    else { assert(names[11] == seq!['B']); }
}

/// Only the pitch-class name at `i` matches itself among the names before it.
proof fn lemma_note_index_of_own_name(i: int)
    requires
        0 <= i < 12,
    ensures
        note_index_from(note_names()[i], 0) == Some(i),
{
    let names = note_names();
    assert forall|j: int| 0 <= j < 12 && j != i implies !eq_ignore_ascii_case(names[i], #[trigger] names[j]) by {
        lemma_note_name_key(i);
        lemma_note_name_key(j);
        if eq_ignore_ascii_case(names[i], names[j]) {
            assert(ascii_lower(names[i][0]) == ascii_lower(names[j][0]));
        }
    }
    assert(eq_ignore_ascii_case(names[i], names[i]));
    lemma_note_index_from_reaches(i, 0);
}

/// Scanning from `j` up to `i` skips every other name and stops at `i`.
proof fn lemma_note_index_from_reaches(i: int, j: int)
    requires
        0 <= j <= i < 12,
        eq_ignore_ascii_case(note_names()[i], note_names()[i]),
        forall|k: int| 0 <= k < 12 && k != i ==> !eq_ignore_ascii_case(note_names()[i], #[trigger] note_names()[k]),
    ensures
        note_index_from(note_names()[i], j) == Some(i),
    decreases i - j,
{
    if j < i {
        lemma_note_index_from_reaches(i, j + 1);
    }
}

} // verus!

verus! {

/// Naming a pitch and reading the name back gives the pitch again, for
/// every pitch whose octave is a single digit (12 through 127).
pub proof fn lemma_pitch_name_round_trip(pitch: int)
    requires
        12 <= pitch <= 127,
    ensures
        parse_note_name(pitch_name(pitch)) matches Some((octave, index)) && (octave + 1) * 12
            + index == pitch,
        name_pitch(pitch_name(pitch)) == Some(pitch),
{
    let octave = pitch / 12 - 1;
    let index = pitch % 12;
    let name = pitch_name(pitch);
    assert(decimal(octave) == seq![digit_char(octave)]);
    lemma_note_name_key(index);
    assert(name.last() == digit_char(octave));
    assert(name.drop_last() =~= note_names()[index]);
    lemma_note_index_of_own_name(index);
}

} // verus!

verus! {

proof fn lemma_note_index_from_matches(part: Seq<char>, j: int, i: int)
    requires
        note_index_from(part, j) == Some(i),
    ensures
        0 <= i < 12,
        eq_ignore_ascii_case(part, note_names()[i]),
    decreases 12 - j,
{
    if 0 <= j < 12 && !eq_ignore_ascii_case(part, note_names()[j]) {
        lemma_note_index_from_matches(part, j + 1, i);
    }
}

/// A name that reads as a pitch is, up to ASCII case, the name of that
/// pitch: reading a name and naming the pitch read gives the name back in
/// its canonical spelling.
pub proof fn lemma_name_round_trip(name: Seq<char>)
    requires
        parse_note_name(name) is Some,
    ensures
        parse_note_name(name) matches Some((octave, index)) && eq_ignore_ascii_case(
            pitch_name((octave + 1) * 12 + index),
            name,
        ),
{
    let (octave, index) = parse_note_name(name).unwrap();
    let part = name.drop_last();
    lemma_note_index_from_matches(part, 0, index);
    let pitch = (octave + 1) * 12 + index;
    assert(pitch % 12 == index && pitch / 12 - 1 == octave);
    assert(0 <= octave <= 9);
    assert(decimal(octave) == seq![digit_char(octave)]);
    assert(digit_char(octave) == name.last());
    let spelled = pitch_name(pitch);
    assert(spelled == note_names()[index] + seq![name.last()]);
    assert forall|k: int| 0 <= k < spelled.len() implies ascii_lower(#[trigger] spelled[k]) == ascii_lower(name[k]) by {
        if k < part.len() {
            assert(spelled[k] == note_names()[index][k]);
            assert(ascii_lower(part[k]) == ascii_lower(note_names()[index][k]));
            assert(part[k] == name[k]);
        } else {
            assert(k == name.len() - 1);
        }
    }
}

} // verus!
