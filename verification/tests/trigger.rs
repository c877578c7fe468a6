use audio_latency_tester::audio::playback::{FrameSource, PlaybackCursor};
use audio_latency_tester::actor::AudioCommand;
use audio_latency_tester::config::{KeyCodeWrap, TriggerBackend, TriggerConfig};
use audio_latency_tester::trigger::evdev::{command_for_event, run_actor, InputEventInfo};

fn config(code: u16) -> TriggerConfig {
    TriggerConfig {
        backend: TriggerBackend::Evdev,
        keycode: KeyCodeWrap(code),
        device: "/dev/input/event0".to_string(),
    }
}

fn ev(event_type: u16, code: u16, value: i32) -> InputEventInfo {
    InputEventInfo { event_type, code, value }
}

#[test]
fn press_of_target_plays() {
    assert_eq!(command_for_event(&config(272), &ev(1, 272, 1)), Some(AudioCommand::Play));
}

#[test]
fn release_repeat_and_other_keys_ignored() {
    let c = config(272);
    assert_eq!(command_for_event(&c, &ev(1, 272, 0)), None);
    assert_eq!(command_for_event(&c, &ev(1, 272, 2)), None);
    assert_eq!(command_for_event(&c, &ev(1, 273, 1)), None);
}

#[test]
fn non_key_events_ignored() {
    let c = config(0);
    assert_eq!(command_for_event(&c, &ev(0, 0, 1)), None);
    assert_eq!(command_for_event(&c, &ev(2, 0, 1)), None);
    assert_eq!(command_for_event(&c, &ev(4, 0, 1)), None);
}

#[test]
fn batch_gives_one_play_per_press() {
    let c = config(57);
    let events = vec![
        ev(4, 4, 458796),
        ev(1, 57, 1),
        ev(0, 0, 0),
        ev(1, 57, 0),
        ev(1, 30, 1),
        ev(1, 57, 1),
        ev(0, 0, 0),
    ];
    assert_eq!(run_actor(&c, &events), vec![AudioCommand::Play, AudioCommand::Play]);
    assert!(run_actor(&c, &vec![]).is_empty());
}

#[test]
fn batches_split_the_same() {
    let c = config(57);
    let a = vec![ev(1, 57, 1), ev(1, 57, 0)];
    let b = vec![ev(1, 57, 1), ev(0, 0, 0), ev(1, 57, 1)];
    let mut whole = a.clone();
    whole.extend(b.iter().copied());
    let mut split = run_actor(&c, &a);
    split.extend(run_actor(&c, &b));
    assert_eq!(run_actor(&c, &whole), split);
    assert_eq!(split.len(), 3);
}

#[test]
fn press_restarts_playback_from_first_point() {
    let c = config(272);
    let mut cursor = PlaybackCursor::new(4);
    cursor.handle_command(AudioCommand::Play);
    cursor.render(3);
    for cmd in run_actor(&c, &vec![ev(1, 272, 1)]) {
        assert!(cursor.handle_command(cmd));
    }
    assert_eq!(cursor.index(), 0);
    assert!(cursor.is_playing());
    assert_eq!(cursor.render(2), vec![FrameSource::Sample(0), FrameSource::Sample(1)]);
}
