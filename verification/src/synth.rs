//! Voice allocation of the polyphonic synthesizers: which voice a note-on
//! takes, which voice a note-off releases, and how many voices sound.
use vstd::prelude::*;
use crate::midi::{MidiEvent, MidiEventType};

verus! {

/// What voice allocation reads of a voice: the pitch it was last given,
/// and whether it still sounds (it is active and its envelope has not
/// fallen idle).
#[derive(Debug, Clone, Copy, PartialEq, Eq, Structural)]
pub struct VoiceStatus {
    pub pitch: u8,
    pub sounding: bool,
}

/// What a synthesizer does with one MIDI event.
#[derive(Debug, Clone, Copy, PartialEq, Eq, Structural)]
pub enum VoiceAction {
    /// Start the note on `voice`; a stolen voice is reset first.
    Trigger { voice: usize, steal: bool, pitch: u8, velocity: u8 },
    /// Release the note sounding on `voice`.
    Release { voice: usize },
    /// Nothing to do.
    Ignore,
}

/// The first voice from `i` on that is silent.
pub open spec fn first_silent(voices: Seq<VoiceStatus>, i: int) -> Option<int>
    decreases voices.len() - i,
{
    if i < 0 || i >= voices.len() {
        None
    } else if !voices[i].sounding {
        Some(i)
    } else {
        first_silent(voices, i + 1)
    }
}

/// The first voice from `i` on that was given `pitch`.
pub open spec fn first_with_pitch(voices: Seq<VoiceStatus>, pitch: u8, i: int) -> Option<int>
    decreases voices.len() - i,
{
    if i < 0 || i >= voices.len() {
        None
    } else if voices[i].pitch == pitch {
        Some(i)
    } else {
        first_with_pitch(voices, pitch, i + 1)
    }
}

/// The first voice from `i` on that sounds `pitch`.
pub open spec fn first_sounding(voices: Seq<VoiceStatus>, pitch: u8, i: int) -> Option<int>
    decreases voices.len() - i,
{
    if i < 0 || i >= voices.len() {
        None
    } else if voices[i].pitch == pitch && voices[i].sounding {
        Some(i)
    } else {
        first_sounding(voices, pitch, i + 1)
    }
}

/// The voice a new note of `pitch` takes, and whether it is stolen: the
/// first silent voice; else the first voice last given the same pitch,
/// stolen; else the first voice, stolen; none when there are no voices.
pub open spec fn allocated_voice(voices: Seq<VoiceStatus>, pitch: u8) -> Option<(int, bool)> {
    match first_silent(voices, 0) {
        Some(i) => Some((i, false)),
        None => match first_with_pitch(voices, pitch, 0) {
            Some(i) => Some((i, true)),
            None => if voices.len() > 0 { Some((0, true)) } else { None },
        },
    }
}

/// Releasing `pitch`: the first voice that sounds it, if any.
pub open spec fn release_action(voices: Seq<VoiceStatus>, pitch: u8) -> VoiceAction {
    match first_sounding(voices, pitch, 0) {
        Some(i) => VoiceAction::Release { voice: i as usize },
        None => VoiceAction::Ignore,
    }
}

/// What a synthesizer does with an event: a note-on with a velocity above
/// 0 starts the note on its allocated voice; a note-off, or a note-on with
/// velocity 0, releases the pitch; every other event is ignored.
pub open spec fn voice_action(voices: Seq<VoiceStatus>, event: MidiEventType) -> VoiceAction {
    match event {
        MidiEventType::NoteOn { pitch, velocity } => if velocity > 0 {
            match allocated_voice(voices, pitch) {
                Some((i, steal)) => VoiceAction::Trigger { voice: i as usize, steal, pitch, velocity },
                None => VoiceAction::Ignore,
            }
        } else {
            release_action(voices, pitch)
        },
        MidiEventType::NoteOff { pitch } => release_action(voices, pitch),
        _ => VoiceAction::Ignore,
    }
}

/// The number of voices that sound.
pub open spec fn sounding_count(voices: Seq<VoiceStatus>) -> nat
    decreases voices.len(),
{
    if voices.len() == 0 {
        0
    } else {
        sounding_count(voices.drop_last()) + if voices.last().sounding { 1nat } else { 0nat }
    }
}

proof fn lemma_first_silent_in_range(voices: Seq<VoiceStatus>, i: int)
    requires
        0 <= i,
    ensures
        first_silent(voices, i) matches Some(k) ==> i <= k < voices.len(),
    decreases voices.len() - i,
{
    if 0 <= i < voices.len() && voices[i].sounding {
        lemma_first_silent_in_range(voices, i + 1);
    }
}

proof fn lemma_first_with_pitch_in_range(voices: Seq<VoiceStatus>, pitch: u8, i: int)
    requires
        0 <= i,
    ensures
        first_with_pitch(voices, pitch, i) matches Some(k) ==> i <= k < voices.len(),
    decreases voices.len() - i,
{
    if 0 <= i < voices.len() && voices[i].pitch != pitch {
        lemma_first_with_pitch_in_range(voices, pitch, i + 1);
    }
}

proof fn lemma_first_sounding_in_range(voices: Seq<VoiceStatus>, pitch: u8, i: int)
    requires
        0 <= i,
    ensures
        first_sounding(voices, pitch, i) matches Some(k) ==> i <= k < voices.len() && voices[k].pitch == pitch
            && voices[k].sounding,
    decreases voices.len() - i,
{
    if 0 <= i < voices.len() && !(voices[i].pitch == pitch && voices[i].sounding) {
        lemma_first_sounding_in_range(voices, pitch, i + 1);
    }
}

fn find_silent(voices: &[VoiceStatus]) -> (r: Option<usize>)
    ensures
        match first_silent(voices@, 0) {
            Some(k) => r == Some(k as usize),
            None => r is None,
        },
{
    let mut i: usize = 0;
    while i < voices.len()
        invariant
            i <= voices@.len(),
            first_silent(voices@, 0) == first_silent(voices@, i as int),
        decreases voices.len() - i,
    {
        if !voices[i].sounding {
            return Some(i);
        }
        i = i + 1;
    }
    None
}

fn find_pitch(voices: &[VoiceStatus], pitch: u8) -> (r: Option<usize>)
    ensures
        match first_with_pitch(voices@, pitch, 0) {
            Some(k) => r == Some(k as usize),
            None => r is None,
        },
{
    let mut i: usize = 0;
    while i < voices.len()
        invariant
            i <= voices@.len(),
            first_with_pitch(voices@, pitch, 0) == first_with_pitch(voices@, pitch, i as int),
        decreases voices.len() - i,
    {
        if voices[i].pitch == pitch {
            return Some(i);
        }
        i = i + 1;
    }
    None
}

fn find_sounding(voices: &[VoiceStatus], pitch: u8) -> (r: Option<usize>)
    ensures
        match first_sounding(voices@, pitch, 0) {
            Some(k) => r == Some(k as usize),
            None => r is None,
        },
{
    let mut i: usize = 0;
    while i < voices.len()
        invariant
            i <= voices@.len(),
            first_sounding(voices@, pitch, 0) == first_sounding(voices@, pitch, i as int),
        decreases voices.len() - i,
    {
        if voices[i].pitch == pitch && voices[i].sounding {
            return Some(i);
        }
        i = i + 1;
    }
    None
}

/// The voice a new note of `pitch` takes, and whether it must be stolen
/// (reset before the note starts).
pub fn allocate_voice(voices: &[VoiceStatus], pitch: u8) -> (r: Option<(usize, bool)>)
    ensures
        match allocated_voice(voices@, pitch) {
            Some((k, steal)) => r == Some((k as usize, steal)) && 0 <= k < voices@.len(),
            None => r is None,
        },
{
    proof {
        lemma_first_silent_in_range(voices@, 0);
        lemma_first_with_pitch_in_range(voices@, pitch, 0);
    }
    match find_silent(voices) {
        Some(i) => Some((i, false)),
        None => match find_pitch(voices, pitch) {
            Some(i) => Some((i, true)),
            None => if voices.len() > 0 { Some((0, true)) } else { None },
        },
    }
}

/// What a synthesizer does with `event`, given the state of its voices.
pub fn plan_voice_event(voices: &[VoiceStatus], event: &MidiEvent) -> (r: VoiceAction)
    ensures
        r == voice_action(voices@, event.event_type),
        r matches VoiceAction::Trigger { voice, .. } ==> voice < voices@.len(),
        r matches VoiceAction::Release { voice } ==> voice < voices@.len(),
{
    proof {
        lemma_first_sounding_in_range(voices@, 0, 0);
    }
    match event.event_type {
        MidiEventType::NoteOn { pitch, velocity } => {
            if velocity > 0 {
                match allocate_voice(voices, pitch) {
                    Some((voice, steal)) => VoiceAction::Trigger { voice, steal, pitch, velocity },
                    None => VoiceAction::Ignore,
                }
            } else {
                proof { lemma_first_sounding_in_range(voices@, pitch, 0); }
                match find_sounding(voices, pitch) {
                    Some(voice) => VoiceAction::Release { voice },
                    None => VoiceAction::Ignore,
                }
            }
        },
        MidiEventType::NoteOff { pitch } => {
            proof { lemma_first_sounding_in_range(voices@, pitch, 0); }
            match find_sounding(voices, pitch) {
                Some(voice) => VoiceAction::Release { voice },
                None => VoiceAction::Ignore,
            }
        },
        _ => VoiceAction::Ignore,
    }
}

/// The number of voices that sound.
pub fn count_sounding(voices: &[VoiceStatus]) -> (r: usize)
    ensures
        r == sounding_count(voices@),
{
    let mut count: usize = 0;
    let mut i: usize = 0;
    while i < voices.len()
        invariant
            i <= voices@.len(),
            count == sounding_count(voices@.subrange(0, i as int)),
            count <= i,
        decreases voices.len() - i,
    {
        let ghost prefix = voices@.subrange(0, i as int + 1);
        assert(prefix.drop_last() =~= voices@.subrange(0, i as int));
        if voices[i].sounding {
            count = count + 1;
        }
        i = i + 1;
    }
    assert(voices@.subrange(0, voices@.len() as int) =~= voices@);
    count
}

/// A note-on with velocity 0 does what a note-off of the same pitch does.
pub proof fn lemma_zero_velocity_releases(voices: Seq<VoiceStatus>, pitch: u8)
    ensures
        voice_action(voices, MidiEventType::NoteOn { pitch, velocity: 0 }) == voice_action(
            voices,
            MidiEventType::NoteOff { pitch },
        ),
{
}

/// A note-on with a velocity above 0 always starts its note when the
/// synthesizer has at least one voice, stealing a voice only when none is
/// silent.
pub proof fn lemma_note_on_gets_voice(voices: Seq<VoiceStatus>, pitch: u8, velocity: u8)
    requires
        voices.len() > 0,
        velocity > 0,
    ensures
        voice_action(voices, MidiEventType::NoteOn { pitch, velocity }) matches VoiceAction::Trigger {
            voice,
            steal,
            pitch: p,
            velocity: v,
        } && voice < voices.len() && p == pitch && v == velocity && (steal <==> forall|i: int|
            0 <= i < voices.len() ==> #[trigger] voices[i].sounding),
{
    lemma_first_silent_in_range(voices, 0);
    lemma_first_with_pitch_in_range(voices, pitch, 0);
    lemma_first_silent_none(voices, 0);
}

proof fn lemma_first_silent_none(voices: Seq<VoiceStatus>, i: int)
    requires
        0 <= i,
    ensures
        first_silent(voices, i) is None <==> forall|k: int| i <= k < voices.len() ==> #[trigger] voices[k].sounding,
        first_silent(voices, i) matches Some(k) ==> !voices[k].sounding,
    decreases voices.len() - i,
{
    if 0 <= i < voices.len() && voices[i].sounding {
        lemma_first_silent_none(voices, i + 1);
    }
}

/// The voices that sound are counted: the count is the number of sounding
/// voices the sequence holds, so it never exceeds the number of voices,
/// silent voices count for nothing, and each sounding voice counts once.
pub proof fn lemma_sounding_count_counts_sounding(voices: Seq<VoiceStatus>)
    ensures
        sounding_count(voices) == voices.filter(|v: VoiceStatus| v.sounding).len(),
        sounding_count(voices) <= voices.len(),
        (forall|i: int| 0 <= i < voices.len() ==> !(#[trigger] voices[i]).sounding) ==> sounding_count(voices) == 0,
        (forall|i: int| 0 <= i < voices.len() ==> (#[trigger] voices[i]).sounding) ==> sounding_count(voices) == voices.len(),
    decreases voices.len(),
{
    reveal(Seq::filter);
    if voices.len() > 0 {
        let rest = voices.drop_last();
        lemma_sounding_count_counts_sounding(rest);
        assert forall|i: int| 0 <= i < rest.len() implies #[trigger] rest[i] == voices[i] by {}
        if forall|i: int| 0 <= i < voices.len() ==> !(#[trigger] voices[i]).sounding {
            assert(!voices[voices.len() - 1].sounding);
            assert forall|i: int| 0 <= i < rest.len() implies !(#[trigger] rest[i]).sounding by {
                assert(rest[i] == voices[i]);
            }
        }
        if forall|i: int| 0 <= i < voices.len() ==> (#[trigger] voices[i]).sounding {
            assert(voices[voices.len() - 1].sounding);
            assert forall|i: int| 0 <= i < rest.len() implies (#[trigger] rest[i]).sounding by {
                assert(rest[i] == voices[i]);
            }
        }
    }
}

/// Adding a voice adds one to the count when it sounds and nothing when it
/// is silent.
pub proof fn lemma_sounding_count_push(voices: Seq<VoiceStatus>, voice: VoiceStatus)
    ensures
        sounding_count(voices.push(voice)) == sounding_count(voices) + if voice.sounding { 1int } else { 0int },
{
    assert(voices.push(voice).drop_last() =~= voices);
}

} // verus!
