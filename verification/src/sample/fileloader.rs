//! The decisions of loading a WAV sample: which files are accepted, how
//! damaged frames are read, and whether the sample is resampled.
//!
//! The program opens the file and decodes its integer samples; the checks on
//! the file's format, on what was decoded and on the target rate stand here.
use std::path::PathBuf;
use vstd::prelude::*;

use crate::config::{is_supported_rate, SampleRateWrap};
use crate::error::{FormatIssue, SampleError};

verus! {

/// How a WAV file stores its samples.
#[derive(Debug, Clone, Copy, PartialEq, Eq, Structural)]
pub enum SampleFormat {
    Float,
    Int,
}

/// The integer sample widths that are decoded.
#[derive(Debug, Clone, Copy, PartialEq, Eq, Structural)]
pub enum SampleDepth {
    Bits16,
    Bits32,
}

/// The header fields of a WAV file that decide whether it is played.
#[derive(Debug, Clone, Copy, PartialEq, Eq, Structural)]
pub struct WavSpecInfo {
    pub channels: u16,
    pub sample_rate: u32,
    pub bits_per_sample: u16,
    pub sample_format: SampleFormat,
}

/// The verdict on a WAV header, checked in this order: one channel, a
/// supported rate, integer samples of 16 or 32 bits.
pub open spec fn wav_verdict(spec: WavSpecInfo) -> Result<SampleDepth, FormatIssue> {
    if spec.channels != 1 {
        Err(FormatIssue::Channels(spec.channels))
    } else if !is_supported_rate(spec.sample_rate) {
        Err(FormatIssue::SampleRate(spec.sample_rate))
    } else if spec.sample_format == SampleFormat::Int {
        if spec.bits_per_sample == 16 {
            Ok(SampleDepth::Bits16)
        } else if spec.bits_per_sample == 32 {
            Ok(SampleDepth::Bits32)
        } else {
            Err(FormatIssue::BitDepth(spec.bits_per_sample))
        }
    } else {
        Err(FormatIssue::FloatSamples)
    }
}

/// Checks a WAV header. On success gives the depth to decode and the file's
/// sample rate; on failure the reason, with the file's path.
pub fn check_wav_spec(path: PathBuf, spec: &WavSpecInfo) -> (r: Result<
    (SampleDepth, SampleRateWrap),
    SampleError,
>)
    ensures
        wav_verdict(*spec) is Ok <==> r is Ok,
        r matches Ok(v) ==> Ok::<SampleDepth, FormatIssue>(v.0) == wav_verdict(*spec) && v.1@
            == spec.sample_rate,
        r matches Err(e) ==> e matches SampleError::UnsupportedFormat { path: p, desc } && p == path
            && Err::<SampleDepth, FormatIssue>(desc) == wav_verdict(*spec),
        spec.channels == 1 && is_supported_rate(spec.sample_rate) && spec.sample_format
            == SampleFormat::Int && spec.bits_per_sample == 16 ==> (r is Ok && r->Ok_0.0
            == SampleDepth::Bits16),
        spec.channels == 1 && is_supported_rate(spec.sample_rate) && spec.sample_format
            == SampleFormat::Int && spec.bits_per_sample == 32 ==> (r is Ok && r->Ok_0.0
            == SampleDepth::Bits32),
{
    if spec.channels != 1 {
        return Err(
            SampleError::UnsupportedFormat { path, desc: FormatIssue::Channels(spec.channels) },
        );
    }
    let rate = match SampleRateWrap::try_from_hz(spec.sample_rate) {
        Ok(rate) => rate,
        Err(hz) => {
            return Err(SampleError::UnsupportedFormat { path, desc: FormatIssue::SampleRate(hz) });
        },
    };
    match spec.sample_format {
        SampleFormat::Int => {
            if spec.bits_per_sample == 16 {
                Ok((SampleDepth::Bits16, rate))
            } else if spec.bits_per_sample == 32 {
                Ok((SampleDepth::Bits32, rate))
            } else {
                Err(
                    SampleError::UnsupportedFormat {
                        path,
                        desc: FormatIssue::BitDepth(spec.bits_per_sample),
                    },
                )
            }
        },
        SampleFormat::Float => Err(
            SampleError::UnsupportedFormat { path, desc: FormatIssue::FloatSamples },
        ),
    }
}

/// The decoded frames, with every frame that could not be read taken as 0.
pub fn repair_frames(frames: &Vec<Option<i32>>) -> (out: Vec<i32>)
    ensures
        out@.len() == frames@.len(),
        forall|i: int|
            0 <= i < frames@.len() ==> #[trigger] out@[i] == match frames@[i] {
                Some(v) => v,
                None => 0i32,
            },
{
    let mut out: Vec<i32> = Vec::new();
    let mut i: usize = 0;
    while i < frames.len()
        invariant
            i <= frames@.len(),
            out@.len() == i,
            forall|j: int|
                0 <= j < i ==> #[trigger] out@[j] == match frames@[j] {
                    Some(v) => v,
                    None => 0i32,
                },
        decreases frames@.len() - i,
    {
        let v = match frames[i] {
            Some(v) => v,
            None => 0i32,
        };
        out.push(v);
        i = i + 1;
    }
    out
}

/// A sample must hold at least one point.
pub fn check_not_empty(len: usize) -> (r: Result<(), SampleError>)
    ensures
        r is Ok <==> len > 0,
        r matches Err(e) ==> e is Empty,
{
    if len == 0 {
        Err(SampleError::Empty)
    } else {
        Ok(())
    }
}

/// The rate to resample to: the requested one, when there is one and it
/// differs from the file's rate.
pub fn resample_target(current: SampleRateWrap, requested: Option<SampleRateWrap>) -> (r: Option<
    SampleRateWrap,
>)
    ensures
        r == (match requested {
            Some(n) => if n@ != current@ {
                Some(n)
            } else {
                None::<SampleRateWrap>
            },
            None => None,
        }),
{
    match requested {
        Some(n) => {
            if n.hz() != current.hz() {
                Some(n)
            } else {
                None
            }
        },
        None => None,
    }
}

/// The rate of the loaded sample: the rate resampled to, or else the file's.
/// Either way it is the requested rate when one was requested.
pub fn final_rate(current: SampleRateWrap, requested: Option<SampleRateWrap>) -> (hz: u32)
    ensures
        hz == match requested {
            Some(n) => n@,
            None => current@,
        },
{
    match resample_target(current, requested) {
        Some(n) => n.hz(),
        None => current.hz(),
    }
}

/// A mono file at a supported rate with integer samples is accepted when its
/// samples are 16 or 32 bits wide, decoded at that width, whatever the rate;
/// any other width is rejected as a bit-depth issue naming that width, and
/// float samples as float samples.
pub proof fn lemma_wav_depth_law(spec: WavSpecInfo)
    requires
        spec.channels == 1,
        is_supported_rate(spec.sample_rate),
    ensures
        spec.sample_format == SampleFormat::Int && spec.bits_per_sample == 16 ==> wav_verdict(spec)
            == Ok::<SampleDepth, FormatIssue>(SampleDepth::Bits16),
        spec.sample_format == SampleFormat::Int && spec.bits_per_sample == 32 ==> wav_verdict(spec)
            == Ok::<SampleDepth, FormatIssue>(SampleDepth::Bits32),
        spec.sample_format == SampleFormat::Int && spec.bits_per_sample != 16
            && spec.bits_per_sample != 32 ==> wav_verdict(spec) == Err::<SampleDepth, FormatIssue>(
            FormatIssue::BitDepth(spec.bits_per_sample),
        ),
        spec.sample_format == SampleFormat::Float ==> wav_verdict(spec) == Err::<
            SampleDepth,
            FormatIssue,
        >(FormatIssue::FloatSamples),
{
}

/// The verdict does not depend on which supported rate a mono file has.
pub proof fn lemma_wav_verdict_rate_independent(a: WavSpecInfo, b: WavSpecInfo)
    requires
        a.channels == b.channels,
        a.bits_per_sample == b.bits_per_sample,
        a.sample_format == b.sample_format,
        is_supported_rate(a.sample_rate),
        is_supported_rate(b.sample_rate),
    ensures
        wav_verdict(a) == wav_verdict(b),
{
}

/// The checks come in order: a file that is not mono is rejected for its
/// channel count, and a mono file at an unsupported rate for its rate,
/// whatever its samples.
pub proof fn lemma_wav_check_order(spec: WavSpecInfo)
    ensures
        spec.channels != 1 ==> wav_verdict(spec) == Err::<SampleDepth, FormatIssue>(
            FormatIssue::Channels(spec.channels),
        ),
        spec.channels == 1 && !is_supported_rate(spec.sample_rate) ==> wav_verdict(spec) == Err::<
            SampleDepth,
            FormatIssue,
        >(FormatIssue::SampleRate(spec.sample_rate)),
{
}

} // verus!
