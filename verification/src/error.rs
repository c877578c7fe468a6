//! Error values of the library and of the program around it.
use std::path::PathBuf;
use vstd::prelude::*;

use crate::decimal::{append_decimal, decimal};

verus! {

/// A file-system path, carried through errors unchanged.
#[verifier::external_type_specification]
#[verifier::external_body]
pub struct ExPathBuf(std::path::PathBuf);

/// An operating-system I/O failure, carried through errors unchanged.
#[verifier::external_type_specification]
#[verifier::external_body]
pub struct ExIoError(std::io::Error);

/// A failure of the WAV decoder, carried through errors unchanged.
#[verifier::external_type_specification]
#[verifier::external_body]
pub struct ExHoundError(hound::Error);

/// Why a WAV file's format is not one the tester plays.
#[derive(Debug, Clone, Copy, PartialEq, Eq, Structural)]
pub enum FormatIssue {
    /// The file has this many channels; exactly one is required.
    Channels(u16),
    /// The file's sample rate is not one of the supported rates.
    SampleRate(u32),
    /// Integer samples of this bit depth; 16 or 32 are required.
    BitDepth(u16),
    /// The samples are floating point; integer samples are required.
    FloatSamples,
}

impl FormatIssue {
    /// The text that describes the issue to the user.
    pub open spec fn description_text(self) -> Seq<char> {
        match self {
            FormatIssue::Channels(n) => "不支持 "@ + decimal(n as nat) + " 声道, 要求 1"@,
            FormatIssue::SampleRate(r) => "不支持 "@ + decimal(r as nat)
                + " 采样率, 要求 16000,22050,32000,44100,48000,88200,96000,176400,192000,384000"@,
            FormatIssue::BitDepth(b) => "不支持 "@ + decimal(b as nat) + " 位深度, 要求 16/32"@,
            FormatIssue::FloatSamples => "不支持 Float 格式, 要求 Int"@,
        }
    }

    /// Describes the issue to the user.
    pub fn description(&self) -> (s: String)
        ensures
            s@ == self.description_text(),
    {
        let mut s = String::new();
        match self {
            FormatIssue::Channels(n) => {
                s.append("不支持 ");
                append_decimal(&mut s, *n as u32);
                s.append(" 声道, 要求 1");
            },
            FormatIssue::SampleRate(r) => {
                s.append("不支持 ");
                append_decimal(&mut s, *r);
                s.append(
                    " 采样率, 要求 16000,22050,32000,44100,48000,88200,96000,176400,192000,384000",
                );
            },
            FormatIssue::BitDepth(b) => {
                s.append("不支持 ");
                append_decimal(&mut s, *b as u32);
                s.append(" 位深度, 要求 16/32");
            },
            FormatIssue::FloatSamples => {
                s.append("不支持 Float 格式, 要求 Int");
            },
        }
        proof {
            assert(s@ =~= self.description_text());
        }
        s
    }
}

/// Errors of loading the sound sample.
#[derive(Debug)]
pub enum SampleError {
    /// The WAV file could not be opened or read.
    WavOpen { path: PathBuf, source: hound::Error },
    /// The WAV file's format is not supported.
    UnsupportedFormat { path: PathBuf, desc: FormatIssue },
    /// The file holds no sample points.
    Empty,
}

/// Errors of the audio backends.
#[derive(Debug)]
pub enum AudioError {
    /// The named backend is not available.
    UnsupportedBackend { backend: String },
    /// The ALSA device could not be set up.
    AlsaInit { detail: String },
    /// The PipeWire stream could not be set up.
    PipewireInit { detail: String },
}

/// Errors of the trigger input.
#[derive(Debug)]
pub enum TriggerError {
    /// The input device could not be opened.
    DeviceOpen { path: PathBuf, source: std::io::Error },
    /// The configured key is not a known key code.
    UnsupportedKeycode { keycode: String },
    /// Reading events from the input device failed.
    EventRead { source: std::io::Error },
}

} // verus!
