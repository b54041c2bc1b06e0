//! MIDI events for real-time processing, and their wire format.
use vstd::prelude::*;

verus! {

/// MIDI event types.
#[derive(Debug, Clone, Copy, PartialEq, Eq, Hash, Structural)]
pub enum MidiEventType {
    NoteOn { pitch: u8, velocity: u8 },
    NoteOff { pitch: u8 },
    ControlChange { controller: u8, value: u8 },
    /// Bend amount, -8192 to 8191.
    PitchBend { value: i16 },
    Aftertouch { pitch: u8, pressure: u8 },
    ChannelPressure { pressure: u8 },
    ProgramChange { program: u8 },
    ModWheel { value: u8 },
}

/// A MIDI event with timing information.
#[derive(Debug, Clone, Copy, PartialEq, Eq, Structural)]
pub struct MidiEvent {
    pub event_type: MidiEventType,
    /// MIDI channel 0-15 (channels 1-16).
    pub channel: u8,
    /// Sample frame timestamp for sample-accurate timing.
    pub timestamp: u64,
}

/// The channel clamped to the valid range 0-15.
pub open spec fn clamp_channel(channel: u8) -> u8 {
    if channel < 15 { channel } else { 15 }
}

fn clamped_channel(channel: u8) -> (r: u8)
    ensures
        r == clamp_channel(channel),
{
    if channel < 15 { channel } else { 15 }
}

impl MidiEvent {
    /// A note-on with a velocity above 0.
    pub open spec fn starts_note(self) -> bool {
        match self.event_type {
            MidiEventType::NoteOn { velocity, .. } => velocity > 0,
            _ => false,
        }
    }

    /// A note-off, or a note-on with velocity 0.
    pub open spec fn ends_note(self) -> bool {
        match self.event_type {
            MidiEventType::NoteOff { .. } => true,
            MidiEventType::NoteOn { velocity, .. } => velocity == 0,
            _ => false,
        }
    }

    /// A note-on event, untimed, on `channel` clamped to 0-15.
    pub fn note_on(pitch: u8, velocity: u8, channel: u8) -> (r: MidiEvent)
        ensures
            r == (MidiEvent { event_type: MidiEventType::NoteOn { pitch, velocity }, channel: clamp_channel(channel), timestamp: 0 }),
    {
        MidiEvent { event_type: MidiEventType::NoteOn { pitch, velocity }, channel: clamped_channel(channel), timestamp: 0 }
    }

    /// A note-off event, untimed, on `channel` clamped to 0-15.
    pub fn note_off(pitch: u8, channel: u8) -> (r: MidiEvent)
        ensures
            r == (MidiEvent { event_type: MidiEventType::NoteOff { pitch }, channel: clamp_channel(channel), timestamp: 0 }),
    {
        MidiEvent { event_type: MidiEventType::NoteOff { pitch }, channel: clamped_channel(channel), timestamp: 0 }
    }

    /// A control-change event, untimed, on `channel` clamped to 0-15.
    pub fn control_change(controller: u8, value: u8, channel: u8) -> (r: MidiEvent)
        ensures
            r == (MidiEvent {
                event_type: MidiEventType::ControlChange { controller, value },
                channel: clamp_channel(channel),
                timestamp: 0,
            }),
    {
        MidiEvent {
            event_type: MidiEventType::ControlChange { controller, value },
            channel: clamped_channel(channel),
            timestamp: 0,
        }
    }

    /// A pitch-bend event, untimed, on `channel` clamped to 0-15.
    pub fn pitch_bend(value: i16, channel: u8) -> (r: MidiEvent)
        ensures
            r == (MidiEvent { event_type: MidiEventType::PitchBend { value }, channel: clamp_channel(channel), timestamp: 0 }),
    {
        MidiEvent { event_type: MidiEventType::PitchBend { value }, channel: clamped_channel(channel), timestamp: 0 }
    }

    /// A preview note-on on channel 0 (immediate, no timestamp).
    pub fn preview_note_on(pitch: u8, velocity: u8) -> (r: MidiEvent)
        ensures
            r == (MidiEvent { event_type: MidiEventType::NoteOn { pitch, velocity }, channel: 0, timestamp: 0 }),
    {
        Self::note_on(pitch, velocity, 0)
    }

    /// A preview note-off on channel 0.
    pub fn preview_note_off(pitch: u8) -> (r: MidiEvent)
        ensures
            r == (MidiEvent { event_type: MidiEventType::NoteOff { pitch }, channel: 0, timestamp: 0 }),
    {
        Self::note_off(pitch, 0)
    }

    /// The pitch of a note-on, note-off or aftertouch event.
    pub fn pitch(&self) -> (r: Option<u8>)
        ensures
            r == (match self.event_type {
                MidiEventType::NoteOn { pitch, .. } => Some(pitch),
                MidiEventType::NoteOff { pitch } => Some(pitch),
                MidiEventType::Aftertouch { pitch, .. } => Some(pitch),
                _ => None,
            }),
    {
        match self.event_type {
            MidiEventType::NoteOn { pitch, .. } => Some(pitch),
            MidiEventType::NoteOff { pitch } => Some(pitch),
            MidiEventType::Aftertouch { pitch, .. } => Some(pitch),
            _ => None,
        }
    }

    /// The velocity of a note-on event.
    pub fn velocity(&self) -> (r: Option<u8>)
        ensures
            r == (match self.event_type {
                MidiEventType::NoteOn { velocity, .. } => Some(velocity),
                _ => None,
            }),
    {
        match self.event_type {
            MidiEventType::NoteOn { velocity, .. } => Some(velocity),
            _ => None,
        }
    }

    /// Whether this is a note-on with velocity above 0.
    pub fn is_note_on(&self) -> (r: bool)
        ensures
            r == self.starts_note(),
    {
        match self.event_type {
            MidiEventType::NoteOn { velocity, .. } => velocity > 0,
            _ => false,
        }
    }

    /// Whether this is a note-off, or a note-on with velocity 0.
    pub fn is_note_off(&self) -> (r: bool)
        ensures
            r == self.ends_note(),
    {
        match self.event_type {
            MidiEventType::NoteOff { .. } => true,
            MidiEventType::NoteOn { velocity, .. } => velocity == 0,
            _ => false,
        }
    }
}

/// The event a raw MIDI message encodes: the status byte's high nibble
/// selects the kind, its low nibble is the channel; note, control,
/// pitch-bend and aftertouch messages need three bytes, channel pressure
/// and program change two. System and incomplete messages encode none.
pub open spec fn decode_midi(bytes: Seq<u8>) -> Option<MidiEvent> {
    if bytes.len() == 0 {
        None
    } else {
        let status = bytes[0];
        let kind = status / 16;
        let channel = (status % 16) as u8;
        let event_type = if kind == 0x8 && bytes.len() >= 3 {
            Some(MidiEventType::NoteOff { pitch: bytes[1] })
        } else if kind == 0x9 && bytes.len() >= 3 {
            Some(MidiEventType::NoteOn { pitch: bytes[1], velocity: bytes[2] })
        } else if kind == 0xB && bytes.len() >= 3 {
            Some(MidiEventType::ControlChange { controller: bytes[1], value: bytes[2] })
        } else if kind == 0xE && bytes.len() >= 3 {
            Some(MidiEventType::PitchBend { value: pitch_bend_value(bytes[1], bytes[2]) })
        } else if kind == 0xA && bytes.len() >= 3 {
            Some(MidiEventType::Aftertouch { pitch: bytes[1], pressure: bytes[2] })
        } else if kind == 0xD && bytes.len() >= 2 {
            Some(MidiEventType::ChannelPressure { pressure: bytes[1] })
        } else if kind == 0xC && bytes.len() >= 2 {
            Some(MidiEventType::ProgramChange { program: bytes[1] })
        } else {
            None
        };
        match event_type {
            Some(event_type) => Some(MidiEvent { event_type, channel, timestamp: 0 }),
            None => None,
        }
    }
}

/// The signed bend of a pitch-bend message from its two data bytes: the
/// 14-bit value `msb << 7 | lsb`, centered on 8192.
pub open spec fn pitch_bend_value(lsb: u8, msb: u8) -> i16 {
    ((((msb as u16) << 7u16) | (lsb as u16)) as int - 8192) as i16
}

/// Parse raw MIDI bytes into an event (untimed).
pub fn parse_midi_message(bytes: &[u8]) -> (r: Option<MidiEvent>)
    ensures
        r == decode_midi(bytes@),
{
    if bytes.len() == 0 {
        return None;
    }
    let status = bytes[0];
    let channel = status & 0x0F;
    let message_type = status & 0xF0;
    assert(channel == status % 16 && message_type == (status / 16) * 16) by (bit_vector)
        requires
            channel == status & 0x0F,
            message_type == status & 0xF0,
    ;
    let event_type = if message_type == 0x80 {
        if bytes.len() >= 3 {
            MidiEventType::NoteOff { pitch: bytes[1] }
        } else {
            return None;
        }
    } else if message_type == 0x90 {
        if bytes.len() >= 3 {
            MidiEventType::NoteOn { pitch: bytes[1], velocity: bytes[2] }
        } else {
            return None;
        }
    } else if message_type == 0xB0 {
        if bytes.len() >= 3 {
            MidiEventType::ControlChange { controller: bytes[1], value: bytes[2] }
        } else {
            return None;
        }
    } else if message_type == 0xE0 {
        if bytes.len() >= 3 {
            let lsb = bytes[1];
            let msb = bytes[2];
            let raw: u16 = ((msb as u16) << 7u16) | (lsb as u16);
            assert(raw < 32768) by (bit_vector)
                requires
                    raw == ((msb as u16) << 7u16) | (lsb as u16),
            ;
            let value: i16 = (raw as i16) - 8192;
            MidiEventType::PitchBend { value }
        } else {
            return None;
        }
    } else if message_type == 0xA0 {
        if bytes.len() >= 3 {
            MidiEventType::Aftertouch { pitch: bytes[1], pressure: bytes[2] }
        } else {
            return None;
        }
    } else if message_type == 0xD0 {
        if bytes.len() >= 2 {
            MidiEventType::ChannelPressure { pressure: bytes[1] }
        } else {
            return None;
        }
    } else if message_type == 0xC0 {
        if bytes.len() >= 2 {
            MidiEventType::ProgramChange { program: bytes[1] }
        } else {
            return None;
        }
    } else {
        return None;
    };
    Some(MidiEvent { event_type, channel, timestamp: 0 })
}

/// Note-on and note-off are exclusive, and every note-on or note-off
/// message is one or the other.
pub proof fn lemma_note_on_off_exclusive(e: MidiEvent)
    ensures
        !(e.starts_note() && e.ends_note()),
        (e.event_type is NoteOn || e.event_type is NoteOff) ==> (e.starts_note() || e.ends_note()),
{
}

/// Every decoded message is untimed and on a channel below 16.
pub proof fn lemma_decoded_channel_in_range(bytes: Seq<u8>)
    ensures
        decode_midi(bytes) matches Some(e) ==> e.channel < 16 && e.timestamp == 0,
{
}

} // verus!

verus! {

/// The three bytes of a note-on message decode to the event `note_on`
/// builds: status 0x9n for channel n, then pitch and velocity.
pub proof fn lemma_note_on_wire_form(pitch: u8, velocity: u8, channel: u8)
    requires
        channel < 16,
    ensures
        decode_midi(seq![(0x90 + channel) as u8, pitch, velocity]) == Some(MidiEvent {
            event_type: MidiEventType::NoteOn { pitch, velocity },
            channel: clamp_channel(channel),
            timestamp: 0,
        }),
{
    let status = (0x90 + channel) as u8;
    assert(status / 16 == 9 && status % 16 == channel);
}

/// The three bytes of a note-off message decode to the event `note_off`
/// builds: status 0x8n for channel n, then pitch and a release velocity
/// that the event does not keep.
pub proof fn lemma_note_off_wire_form(pitch: u8, release: u8, channel: u8)
    requires
        channel < 16,
    ensures
        decode_midi(seq![(0x80 + channel) as u8, pitch, release]) == Some(MidiEvent {
            event_type: MidiEventType::NoteOff { pitch },
            channel: clamp_channel(channel),
            timestamp: 0,
        }),
{
    let status = (0x80 + channel) as u8;
    assert(status / 16 == 8 && status % 16 == channel);
}

} // verus!
