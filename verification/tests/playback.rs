use audio_latency_tester::actor::AudioCommand;
use audio_latency_tester::audio::playback::{FrameSource, PlaybackCursor};

#[test]
fn new_cursor_is_stopped_at_start() {
    let c = PlaybackCursor::new(5);
    assert_eq!(c.len(), 5);
    assert!(!c.is_playing());
    assert_eq!(c.index(), 0);
}

#[test]
fn stopped_cursor_renders_silence() {
    let mut c = PlaybackCursor::new(3);
    let out = c.render(4);
    assert_eq!(out, vec![FrameSource::Silence; 4]);
    assert_eq!(c.index(), 0);
    assert!(!c.is_playing());
}

#[test]
fn play_renders_whole_sample_then_silence() {
    let mut c = PlaybackCursor::new(3);
    assert!(c.handle_command(AudioCommand::Play));
    let out = c.render(5);
    assert_eq!(
        out,
        vec![
            FrameSource::Sample(0),
            FrameSource::Sample(1),
            FrameSource::Sample(2),
            FrameSource::Silence,
            FrameSource::Silence
        ]
    );
    assert!(!c.is_playing());
    assert_eq!(c.index(), 3);
}

#[test]
fn play_ending_exactly_at_buffer_end_keeps_playing() {
    let mut c = PlaybackCursor::new(3);
    c.handle_command(AudioCommand::Play);
    let out = c.render(3);
    assert_eq!(out, vec![FrameSource::Sample(0), FrameSource::Sample(1), FrameSource::Sample(2)]);
    assert!(c.is_playing());
    assert_eq!(c.next_frame(), FrameSource::Silence);
    assert!(!c.is_playing());
}

#[test]
fn render_split_matches_single_render() {
    let mut a = PlaybackCursor::new(7);
    let mut b = PlaybackCursor::new(7);
    a.handle_command(AudioCommand::Play);
    b.handle_command(AudioCommand::Play);
    let whole = a.render(10);
    let mut parts = b.render(4);
    parts.extend(b.render(6));
    assert_eq!(whole, parts);
    assert_eq!(a.index(), b.index());
    assert_eq!(a.is_playing(), b.is_playing());
}

#[test]
fn play_restarts_from_beginning() {
    let mut c = PlaybackCursor::new(10);
    c.handle_command(AudioCommand::Play);
    c.render(6);
    assert_eq!(c.index(), 6);
    c.handle_command(AudioCommand::Play);
    assert_eq!(c.index(), 0);
    assert_eq!(c.next_frame(), FrameSource::Sample(0));
}

#[test]
fn stop_silences_and_keeps_position() {
    let mut c = PlaybackCursor::new(10);
    c.handle_command(AudioCommand::Play);
    c.render(2);
    assert!(c.handle_command(AudioCommand::Stop));
    assert_eq!(c.render(3), vec![FrameSource::Silence; 3]);
    assert_eq!(c.index(), 2);
}

#[test]
fn quit_ends_loop_without_change() {
    let mut c = PlaybackCursor::new(4);
    c.handle_command(AudioCommand::Play);
    c.render(1);
    assert!(!c.handle_command(AudioCommand::Quit));
    assert!(c.is_playing());
    assert_eq!(c.index(), 1);
}

#[test]
fn empty_sample_plays_nothing() {
    let mut c = PlaybackCursor::new(0);
    c.handle_command(AudioCommand::Play);
    assert_eq!(c.render(2), vec![FrameSource::Silence; 2]);
    assert!(!c.is_playing());
}

#[test]
fn render_zero_frames() {
    let mut c = PlaybackCursor::new(4);
    c.handle_command(AudioCommand::Play);
    assert!(c.render(0).is_empty());
    assert!(c.is_playing());
    assert_eq!(c.index(), 0);
}
