//! Channels of the channel rack: instruments, samplers and plugins.
use vstd::prelude::*;
use vstd::string::*;
use crate::{Float32, Id};
use crate::text::copy_optional_text;

verus! {

/// Unique identifier for a channel.
pub type ChannelId = Id;

/// Bit pattern of the default channel volume, 0.8.
pub const DEFAULT_VOLUME_BITS: u32 = 0x3F4C_CCCD;

/// A channel represents an instrument/sampler in the channel rack.
#[derive(Clone, Debug, PartialEq)]
pub struct Channel {
    pub id: ChannelId,
    pub name: String,
    /// Color for UI representation.
    pub color: String,
    /// Channel type determines how it generates sound.
    pub channel_type: ChannelType,
    /// Volume (0.0 - 1.0).
    pub volume: Float32,
    /// Pan (-1.0 left to 1.0 right).
    pub pan: Float32,
    /// Mute state.
    pub muted: bool,
    /// Solo state.
    pub solo: bool,
    /// Output to mixer track.
    pub mixer_track: usize,
}

/// Types of channels.
#[derive(Clone, Debug, PartialEq)]
pub enum ChannelType {
    /// Sample-based instrument.
    Sampler {
        /// Path to audio file.
        sample_path: Option<String>,
        /// Root note for sample playback (if different from C4).
        root_note: Option<u8>,
        /// Loop sample.
        loop_sample: bool,
    },
    /// Built-in synthesizer.
    Synthesizer {
        /// Preset name.
        preset: String,
        /// Oscillator type.
        osc_type: OscillatorType,
    },
    /// Audio clip player.
    AudioClip {
        /// Path to audio file.
        file_path: String,
    },
    /// External plugin (VST, etc.).
    Plugin {
        /// Plugin name.
        name: String,
        /// Plugin vendor.
        vendor: Option<String>,
        /// Plugin type.
        plugin_type: PluginType,
    },
}

/// Oscillator types for synthesizers.
#[derive(Clone, Debug, PartialEq)]
pub enum OscillatorType {
    Sine,
    Square,
    Sawtooth,
    Triangle,
    Noise,
    Custom(String),
}

/// Plugin types.
#[derive(Clone, Copy, Debug, PartialEq, Eq, Structural)]
pub enum PluginType {
    Vst2,
    Vst3,
    /// Audio Unit (macOS).
    Au,
    Clap,
    Lv2,
    Unknown,
}

/// Whether a channel is silenced: it is muted, or it is soloed while the
/// rack reports no active solo (a fresh channel plays whatever the solo
/// state of the rack).
pub open spec fn channel_effectively_muted(muted: bool, solo: bool, any_solo_active: bool) -> bool {
    muted || (solo && !any_solo_active)
}

impl Channel {
    /// A channel as `new` builds it: full default state with the given identity.
    pub open spec fn fresh(self, id: ChannelId, name: Seq<char>, color: Seq<char>) -> bool {
        &&& self.id == id
        &&& self.name@ == name
        &&& self.color@ == color
        &&& self.volume.bits == DEFAULT_VOLUME_BITS
        &&& self.pan.bits == 0
        &&& !self.muted
        &&& !self.solo
        &&& self.mixer_track == 0
    }

    /// Create a new channel.
    pub fn new(id: ChannelId, name: &str, color: &str, channel_type: ChannelType) -> (r: Channel)
        ensures
            r.fresh(id, name@, color@),
            r.channel_type == channel_type,
    {
        Channel {
            id,
            name: String::from_str(name),
            color: String::from_str(color),
            channel_type,
            volume: Float32 { bits: DEFAULT_VOLUME_BITS },
            pan: Float32 { bits: 0 },
            muted: false,
            solo: false,
            mixer_track: 0,
        }
    }

    /// Create a new synthesizer channel ("Default" preset, sine oscillator).
    pub fn new_synth(id: ChannelId, name: &str, color: &str) -> (r: Channel)
        ensures
            r.fresh(id, name@, color@),
            r.channel_type matches ChannelType::Synthesizer { preset, osc_type }
                && preset@ == "Default"@ && osc_type == OscillatorType::Sine,
    {
        Self::new(
            id,
            name,
            color,
            ChannelType::Synthesizer { preset: String::from_str("Default"), osc_type: OscillatorType::Sine },
        )
    }

    /// Create a new sampler channel.
    pub fn new_sampler(id: ChannelId, name: &str, color: &str, sample_path: Option<String>) -> (r: Channel)
        ensures
            r.fresh(id, name@, color@),
            r.channel_type == (ChannelType::Sampler { sample_path, root_note: None, loop_sample: false }),
    {
        Self::new(id, name, color, ChannelType::Sampler { sample_path, root_note: None, loop_sample: false })
    }

    /// Toggle mute state; returns the new state.
    pub fn toggle_mute(&mut self) -> (r: bool)
        ensures
            r == !old(self).muted,
            *final(self) == (Channel { muted: r, ..*old(self) }),
    {
        self.muted = !self.muted;
        self.muted
    }

    /// Toggle solo state; returns the new state.
    pub fn toggle_solo(&mut self) -> (r: bool)
        ensures
            r == !old(self).solo,
            *final(self) == (Channel { solo: r, ..*old(self) }),
    {
        self.solo = !self.solo;
        self.solo
    }

    /// Check if the channel is effectively muted (considering solo states of other channels).
    pub fn is_effective_mute(&self, any_solo_active: bool) -> (r: bool)
        ensures
            r == channel_effectively_muted(self.muted, self.solo, any_solo_active),
    {
        self.muted || (self.solo && !any_solo_active)
    }
}

impl Default for Channel {
    fn default() -> (r: Channel)
        ensures
            r.fresh(0, "Channel 1"@, "#3b82f6"@),
            r.channel_type matches ChannelType::Synthesizer { preset, osc_type }
                && preset@ == "Default"@ && osc_type == OscillatorType::Sine,
    {
        Self::new_synth(0, "Channel 1", "#3b82f6")
    }
}

impl OscillatorType {
    /// A copy of the oscillator type.
    pub fn copy(&self) -> (r: OscillatorType)
        ensures
            r == *self,
    {
        match self {
            OscillatorType::Sine => OscillatorType::Sine,
            OscillatorType::Square => OscillatorType::Square,
            OscillatorType::Sawtooth => OscillatorType::Sawtooth,
            OscillatorType::Triangle => OscillatorType::Triangle,
            OscillatorType::Noise => OscillatorType::Noise,
            OscillatorType::Custom(name) => OscillatorType::Custom(name.clone()),
        }
    }
}

impl ChannelType {
    /// A copy of the channel type.
    pub fn copy(&self) -> (r: ChannelType)
        ensures
            r == *self,
    {
        match self {
            ChannelType::Sampler { sample_path, root_note, loop_sample } => ChannelType::Sampler {
                sample_path: copy_optional_text(sample_path),
                root_note: *root_note,
                loop_sample: *loop_sample,
            },
            ChannelType::Synthesizer { preset, osc_type } => ChannelType::Synthesizer {
                preset: preset.clone(),
                osc_type: osc_type.copy(),
            },
            ChannelType::AudioClip { file_path } => ChannelType::AudioClip { file_path: file_path.clone() },
            ChannelType::Plugin { name, vendor, plugin_type } => ChannelType::Plugin {
                name: name.clone(),
                vendor: copy_optional_text(vendor),
                plugin_type: *plugin_type,
            },
        }
    }
}

impl Channel {
    /// A copy of the channel.
    pub fn copy(&self) -> (r: Channel)
        ensures
            r == *self,
    {
        Channel {
            name: self.name.clone(),
            color: self.color.clone(),
            channel_type: self.channel_type.copy(),
            ..*self
        }
    }
}

/// Mute and solo of a channel: a muted channel is silenced whatever the
/// solos, and an unmuted channel that is not soloed always plays.
pub proof fn lemma_channel_mute_and_solo(muted: bool, solo: bool, any_solo_active: bool)
    ensures
        muted ==> channel_effectively_muted(muted, solo, any_solo_active),
        !muted && !solo ==> !channel_effectively_muted(muted, solo, any_solo_active),
{
}

} // verus!
