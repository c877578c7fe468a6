//! The program's configuration, and the checks on its values that the
//! configuration file's reader delegates here.
use vstd::prelude::*;

use crate::error::TriggerError;

verus! {

/// Which audio output backend plays the sample.
#[derive(Debug, Clone, Copy, PartialEq, Eq, Structural)]
pub enum AudioBackend {
    Alsa,
    Pipewire,
}

/// Where the sound sample comes from.
#[derive(Debug, Clone, Copy, PartialEq, Eq, Structural)]
pub enum SampleBackend {
    FileLoader,
}

/// Which input backend watches the trigger key.
#[derive(Debug, Clone, Copy, PartialEq, Eq, Structural)]
pub enum TriggerBackend {
    Evdev,
}

/// The whole configuration.
#[derive(Debug, Clone)]
pub struct AppConfig {
    pub audio: AudioConfig,
    pub sample: SampleConfig,
    pub trigger: TriggerConfig,
}

/// Audio output settings: the backend, and the buffer size in frames.
#[derive(Debug, Clone)]
pub struct AudioConfig {
    pub backend: AudioBackend,
    pub buffer: u32,
}

/// The sample rates that the resampler works with, in Hz.
pub open spec fn is_supported_rate(hz: u32) -> bool {
    ||| hz == 16000
    ||| hz == 22050
    ||| hz == 32000
    ||| hz == 44100
    ||| hz == 48000
    ||| hz == 88200
    ||| hz == 96000
    ||| hz == 176400
    ||| hz == 192000
    ||| hz == 384000
}

/// `resampler::SampleRate::try_from(u32)`, read back through
/// `From<SampleRate> for u32`. The crate's source maps each of its ten rates
/// to its variant and back to the same number, and rejects every other value;
/// the contract states exactly that.
#[verifier::external_body]
fn resampler_rate(hz: u32) -> (r: Option<u32>)
    ensures
        r == (if is_supported_rate(hz) {
            Some(hz)
        } else {
            None
        }),
{
    resampler::SampleRate::try_from(hz).ok().map(u32::from)
}

/// A sample rate that the resampler supports.
#[derive(Debug, Clone, Copy)]
pub struct SampleRateWrap(u32);

impl View for SampleRateWrap {
    type V = u32;

    closed spec fn view(&self) -> u32 {
        self.0
    }
}

impl SampleRateWrap {
    #[verifier::type_invariant]
    spec fn supported(self) -> bool {
        is_supported_rate(self.0)
    }

    /// The rate of `hz` Hz, if the resampler supports it; otherwise the
    /// rejected value.
    pub fn try_from_hz(hz: u32) -> (r: Result<SampleRateWrap, u32>)
        ensures
            is_supported_rate(hz) <==> r is Ok,
            r matches Ok(rate) ==> rate@ == hz,
            r matches Err(v) ==> v == hz,
    {
        match resampler_rate(hz) {
            Some(v) => Ok(SampleRateWrap(v)),
            None => Err(hz),
        }
    }

    /// The rate in Hz; always a supported one.
    pub fn hz(&self) -> (v: u32)
        ensures
            v == self@,
            is_supported_rate(v),
    {
        proof {
            use_type_invariant(self);
        }
        self.0
    }

    /// The rate as the signed integer that audio format descriptions carry;
    /// every supported rate fits.
    pub fn as_i32(&self) -> (v: i32)
        ensures
            v == self@,
    {
        proof {
            use_type_invariant(self);
        }
        self.0 as i32
    }
}

/// Sample settings: the source, the WAV file, and the rate to resample to.
#[derive(Debug, Clone)]
pub struct SampleConfig {
    pub backend: SampleBackend,
    pub filename: String,
    pub rate: Option<SampleRateWrap>,
}

/// The code that `evdev::KeyCode::from_str` gives for a key name. The crate
/// looks the name up in its table of key constants.
pub uninterp spec fn key_code_for_name(name: Seq<char>) -> Option<u16>;

/// `<evdev::KeyCode as FromStr>::from_str`: the code of the key constant
/// named exactly `name` (such as `KEY_A` or `BTN_LEFT`), or nothing when no
/// constant has that name. The table itself is not restated; the result is
/// named by [`key_code_for_name`].
#[verifier::external_body]
fn evdev_key_code(name: &str) -> (r: Option<u16>)
    ensures
        r == key_code_for_name(name@),
{
    name.parse::<::evdev::KeyCode>().ok().map(|k| k.0)
}

/// How a key is written in the configuration: by number or by name.
#[derive(Debug, Clone)]
pub enum KeyCodeValue {
    Num(u16),
    Str(String),
}

/// The input key code that triggers playback.
#[derive(Debug, Clone, Copy, PartialEq, Eq, Structural)]
pub struct KeyCodeWrap(pub u16);

impl KeyCodeWrap {
    /// The key with this numeric code; every number is accepted.
    pub fn from_code(code: u16) -> (k: KeyCodeWrap)
        ensures
            k.0 == code,
    {
        KeyCodeWrap(code)
    }

    /// The key with this name, as the input library names its keys.
    pub fn from_name(name: &str) -> (r: Result<KeyCodeWrap, TriggerError>)
        ensures
            key_code_for_name(name@) is Some <==> r is Ok,
            r matches Ok(k) ==> Some(k.0) == key_code_for_name(name@),
            r matches Err(e) ==> e matches TriggerError::UnsupportedKeycode { keycode } && keycode@
                == name@,
    {
        match evdev_key_code(name) {
            Some(code) => Ok(KeyCodeWrap(code)),
            None => Err(TriggerError::UnsupportedKeycode { keycode: name.to_string() }),
        }
    }

    /// The key a configuration value denotes.
    pub fn from_value(v: &KeyCodeValue) -> (r: Result<KeyCodeWrap, TriggerError>)
        ensures
            v matches KeyCodeValue::Num(n) ==> r == Ok::<KeyCodeWrap, TriggerError>(KeyCodeWrap(*n)),
            v matches KeyCodeValue::Str(s) ==> {
                &&& (key_code_for_name(s@) is Some <==> r is Ok)
                &&& r matches Ok(k) ==> Some(k.0) == key_code_for_name(s@)
                &&& r matches Err(e) ==> e matches TriggerError::UnsupportedKeycode { keycode }
                    && keycode@ == s@
            },
    {
        match v {
            KeyCodeValue::Num(n) => Ok(KeyCodeWrap::from_code(*n)),
            KeyCodeValue::Str(s) => KeyCodeWrap::from_name(s.as_str()),
        }
    }

    /// The numeric key code.
    pub fn code(&self) -> (c: u16)
        ensures
            c == self.0,
    {
        self.0
    }
}

/// Trigger settings: the backend, the key, and the input device's path.
#[derive(Debug, Clone)]
pub struct TriggerConfig {
    pub backend: TriggerBackend,
    pub keycode: KeyCodeWrap,
    pub device: String,
}

} // verus!
