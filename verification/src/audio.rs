//! Audio-engine configuration, audio file formats and device names.
use vstd::prelude::*;
use vstd::string::*;
use crate::text::{chars_of, chars_contain, contains_seq};

verus! {

/// Audio file formats the engine knows.
#[derive(Debug, Clone, Copy, PartialEq, Eq, Structural)]
pub enum AudioFormat {
    Wav,
    Flac,
    Mp3,
    Ogg,
    Unknown,
}

/// What `std::path::Path::extension` finds in a path: the text after the
/// last dot of its last component, when there is one. Named here, not
/// defined: the rules for components, leading dots and trailing dots are
/// the standard library's, for the target the crate is built for (Windows
/// also splits components at a backslash, Unix does not).
pub uninterp spec fn path_extension(path: Seq<char>) -> Option<Seq<char>>;

/// What `str::to_lowercase` makes of a string: its Unicode lower-case
/// mapping. Named here, not defined.
pub uninterp spec fn lowercase(s: Seq<char>) -> Seq<char>;

/// The extension of a path, by a call of `std::path::Path::extension`.
/// Trusted, not proved: the result is the extension `path_extension` names,
/// as text, and `None` exactly when it names none (a `&str` path is valid
/// UTF-8, so the extension always converts to text).
#[verifier::external_body]
fn extension_of(path: &str) -> (r: Option<String>)
    ensures
        match (r, path_extension(path@)) {
            (Some(e), Some(x)) => e@ == x,
            (None, None) => true,
            _ => false,
        },
{
    std::path::Path::new(path).extension().and_then(|e| e.to_str()).map(|e| e.to_string())
}

/// The lower-case form of a string, by a call of `str::to_lowercase`.
/// Trusted, not proved: the result is the string `lowercase` names for the
/// argument; nothing else about the mapping is claimed.
#[verifier::external_body]
pub(crate) fn to_lowercase(s: &str) -> (r: String)
    ensures
        r@ == lowercase(s@),
{
    s.to_lowercase()
}

/// The format a path names by its extension, compared case-insensitively.
pub open spec fn format_of_extension(ext: Option<Seq<char>>) -> AudioFormat {
    match ext {
        Some(e) => {
            let lower = lowercase(e);
            if lower == "wav"@ {
                AudioFormat::Wav
            } else if lower == "flac"@ {
                AudioFormat::Flac
            } else if lower == "mp3"@ {
                AudioFormat::Mp3
            } else if lower == "ogg"@ {
                AudioFormat::Ogg
            } else {
                AudioFormat::Unknown
            }
        },
        None => AudioFormat::Unknown,
    }
}

impl AudioFormat {
    /// The format of an audio file, by the extension of its path.
    pub fn from_path(path: &str) -> (r: AudioFormat)
        ensures
            r == format_of_extension(path_extension(path@)),
    {
        match extension_of(path) {
            Some(ext) => {
                let lower = to_lowercase(ext.as_str());
                if lower == String::from_str("wav") {
                    AudioFormat::Wav
                } else if lower == String::from_str("flac") {
                    AudioFormat::Flac
                } else if lower == String::from_str("mp3") {
                    AudioFormat::Mp3
                } else if lower == String::from_str("ogg") {
                    AudioFormat::Ogg
                } else {
                    AudioFormat::Unknown
                }
            },
            None => AudioFormat::Unknown,
        }
    }
}

/// Audio engine configuration.
#[derive(Debug, Clone, Copy, PartialEq, Eq, Structural)]
pub struct EngineConfig {
    pub sample_rate: u32,
    pub buffer_size: u32,
    pub channels: u16,
    pub input_enabled: bool,
    pub output_enabled: bool,
}

/// An audio processor that copies its input to its output.
#[derive(Debug, Clone, Copy, PartialEq, Eq, Structural)]
pub struct PassThroughProcessor;

impl PassThroughProcessor {
    pub fn new() -> (r: PassThroughProcessor)
        ensures
            r == PassThroughProcessor,
    {
        PassThroughProcessor
    }
}

/// Whether a lower-cased name holds `needle`.
pub(crate) fn lower_contains(lower: &[char], needle: &str) -> (r: bool)
    ensures
        r == contains_seq(lower@, needle@),
{
    let needle_chars = chars_of(needle);
    chars_contain(lower, needle_chars.as_slice())
}

/// Whether a device name marks a professional (ASIO-class) interface.
pub open spec fn is_asio_name(name: Seq<char>) -> bool {
    let lower = lowercase(name);
    ||| contains_seq(lower, "asio"@)
    ||| contains_seq(lower, "focusrite"@)
    ||| contains_seq(lower, "scarlett"@)
    ||| contains_seq(lower, "universal audio"@)
    ||| contains_seq(lower, "rme"@)
    ||| contains_seq(lower, "motu"@)
    ||| contains_seq(lower, "steinberg"@)
}

/// Whether a device name marks a professional (ASIO-class) interface.
pub fn is_asio_device(name: &str) -> (r: bool)
    ensures
        r == is_asio_name(name@),
{
    let lower = to_lowercase(name);
    let l = chars_of(lower.as_str());
    let l = l.as_slice();
    lower_contains(l, "asio") || lower_contains(l, "focusrite") || lower_contains(l, "scarlett")
        || lower_contains(l, "universal audio") || lower_contains(l, "rme") || lower_contains(l, "motu")
        || lower_contains(l, "steinberg")
}

/// A device name is ASIO-class whenever its lower-case form holds one of
/// the marker words, and only then.
pub proof fn lemma_asio_markers(name: Seq<char>)
    ensures
        contains_seq(lowercase(name), "asio"@) ==> is_asio_name(name),
        contains_seq(lowercase(name), "focusrite"@) ==> is_asio_name(name),
        contains_seq(lowercase(name), "scarlett"@) ==> is_asio_name(name),
        contains_seq(lowercase(name), "universal audio"@) ==> is_asio_name(name),
        contains_seq(lowercase(name), "rme"@) ==> is_asio_name(name),
        contains_seq(lowercase(name), "motu"@) ==> is_asio_name(name),
        contains_seq(lowercase(name), "steinberg"@) ==> is_asio_name(name),
        is_asio_name(name) ==> exists|marker: Seq<char>| {
            &&& #[trigger] contains_seq(lowercase(name), marker)
            &&& (marker == "asio"@ || marker == "focusrite"@ || marker == "scarlett"@
                || marker == "universal audio"@ || marker == "rme"@ || marker == "motu"@
                || marker == "steinberg"@)
        },
{
}

/// The format depends on an extension only through its lower-case form:
/// extensions that lower-case alike give the same format, an extension
/// whose lower-case form is "wav", "flac", "mp3" or "ogg" gives that
/// format, any other gives none, and so does a path without an extension.
pub proof fn lemma_format_by_lowercase(a: Seq<char>, b: Seq<char>)
    ensures
        lowercase(a) == lowercase(b) ==> format_of_extension(Some(a)) == format_of_extension(Some(b)),
        lowercase(a) == "wav"@ ==> format_of_extension(Some(a)) == AudioFormat::Wav,
        lowercase(a) == "flac"@ ==> format_of_extension(Some(a)) == AudioFormat::Flac,
        lowercase(a) == "mp3"@ ==> format_of_extension(Some(a)) == AudioFormat::Mp3,
        lowercase(a) == "ogg"@ ==> format_of_extension(Some(a)) == AudioFormat::Ogg,
        format_of_extension(Some(a)) != AudioFormat::Unknown ==> lowercase(a) == "wav"@ || lowercase(a) == "flac"@
            || lowercase(a) == "mp3"@ || lowercase(a) == "ogg"@,
        format_of_extension(None) == AudioFormat::Unknown,
{
    reveal_strlit("wav");
    reveal_strlit("flac");
    reveal_strlit("mp3");
    reveal_strlit("ogg");
    assert("flac"@ != "wav"@) by { assert("flac"@.len() != "wav"@.len()); }
    assert("mp3"@ != "wav"@) by { assert("mp3"@[0] != "wav"@[0]); }
    assert("mp3"@ != "flac"@) by { assert("mp3"@.len() != "flac"@.len()); }
    assert("ogg"@ != "wav"@) by { assert("ogg"@[0] != "wav"@[0]); }
    assert("ogg"@ != "flac"@) by { assert("ogg"@.len() != "flac"@.len()); }
    assert("ogg"@ != "mp3"@) by { assert("ogg"@[0] != "mp3"@[0]); }
}

} // verus!
