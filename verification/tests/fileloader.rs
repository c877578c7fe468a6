use std::path::PathBuf;

use audio_latency_tester::config::SampleRateWrap;
use audio_latency_tester::error::{FormatIssue, SampleError};
use audio_latency_tester::sample::fileloader::{
    check_not_empty, check_wav_spec, final_rate, repair_frames, resample_target, SampleDepth,
    SampleFormat, WavSpecInfo,
};

fn spec(channels: u16, rate: u32, bits: u16, format: SampleFormat) -> WavSpecInfo {
    WavSpecInfo { channels, sample_rate: rate, bits_per_sample: bits, sample_format: format }
}

fn issue(r: Result<(SampleDepth, SampleRateWrap), SampleError>) -> FormatIssue {
    match r {
        Err(SampleError::UnsupportedFormat { path, desc }) => {
            assert_eq!(path, PathBuf::from("a.wav"));
            desc
        }
        other => panic!("unexpected: {:?}", other),
    }
}

#[test]
fn accepts_mono_int_16_and_32() {
    let (d, r) = check_wav_spec("a.wav".into(), &spec(1, 44100, 16, SampleFormat::Int)).unwrap();
    assert_eq!(d, SampleDepth::Bits16);
    assert_eq!(r.hz(), 44100);
    let (d, r) = check_wav_spec("a.wav".into(), &spec(1, 48000, 32, SampleFormat::Int)).unwrap();
    assert_eq!(d, SampleDepth::Bits32);
    assert_eq!(r.hz(), 48000);
}

#[test]
fn rejects_stereo_first() {
    let r = check_wav_spec("a.wav".into(), &spec(2, 12345, 8, SampleFormat::Float));
    assert_eq!(issue(r), FormatIssue::Channels(2));
}

#[test]
fn rejects_unsupported_rate() {
    let r = check_wav_spec("a.wav".into(), &spec(1, 8000, 16, SampleFormat::Int));
    assert_eq!(issue(r), FormatIssue::SampleRate(8000));
}

#[test]
fn rejects_bit_depth() {
    let r = check_wav_spec("a.wav".into(), &spec(1, 44100, 24, SampleFormat::Int));
    assert_eq!(issue(r), FormatIssue::BitDepth(24));
}

#[test]
fn rejects_float_before_depth() {
    let r = check_wav_spec("a.wav".into(), &spec(1, 44100, 24, SampleFormat::Float));
    assert_eq!(issue(r), FormatIssue::FloatSamples);
    let r = check_wav_spec("a.wav".into(), &spec(1, 44100, 32, SampleFormat::Float));
    assert_eq!(issue(r), FormatIssue::FloatSamples);
}

#[test]
fn damaged_frames_become_zero() {
    assert_eq!(repair_frames(&vec![Some(5), None, Some(-7), None]), vec![5, 0, -7, 0]);
    assert!(repair_frames(&vec![]).is_empty());
}

#[test]
fn empty_sample_rejected() {
    assert!(matches!(check_not_empty(0), Err(SampleError::Empty)));
    assert!(check_not_empty(1).is_ok());
}

#[test]
fn resampling_decision() {
    let r44 = SampleRateWrap::try_from_hz(44100).unwrap();
    let r48 = SampleRateWrap::try_from_hz(48000).unwrap();
    assert_eq!(resample_target(r44, Some(r48)).map(|r| r.hz()), Some(48000));
    assert!(resample_target(r44, Some(r44)).is_none());
    assert!(resample_target(r44, None).is_none());
    assert_eq!(final_rate(r44, Some(r48)), 48000);
    assert_eq!(final_rate(r44, Some(r44)), 44100);
    assert_eq!(final_rate(r48, None), 48000);
}

#[test]
fn issue_descriptions() {
    assert_eq!(FormatIssue::Channels(2).description(), "不支持 2 声道, 要求 1");
    assert_eq!(
        FormatIssue::SampleRate(8000).description(),
        "不支持 8000 采样率, 要求 16000,22050,32000,44100,48000,88200,96000,176400,192000,384000"
    );
    assert_eq!(FormatIssue::BitDepth(24).description(), "不支持 24 位深度, 要求 16/32");
    assert_eq!(FormatIssue::FloatSamples.description(), "不支持 Float 格式, 要求 Int");
}
