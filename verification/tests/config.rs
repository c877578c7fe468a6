use audio_latency_tester::config::{KeyCodeValue, KeyCodeWrap, SampleRateWrap};
use audio_latency_tester::error::TriggerError;

#[test]
fn supported_rates_accepted() {
    for hz in [16000u32, 22050, 32000, 44100, 48000, 88200, 96000, 176400, 192000, 384000] {
        let r = SampleRateWrap::try_from_hz(hz).expect("supported");
        assert_eq!(r.hz(), hz);
        assert_eq!(r.as_i32(), hz as i32);
    }
}

#[test]
fn unsupported_rates_rejected() {
    for hz in [0u32, 8000, 44101, 352800, u32::MAX] {
        assert_eq!(SampleRateWrap::try_from_hz(hz).unwrap_err(), hz);
    }
}

#[test]
fn key_by_number() {
    assert_eq!(KeyCodeWrap::from_code(272).code(), 272);
    let k = KeyCodeWrap::from_value(&KeyCodeValue::Num(57)).unwrap();
    assert_eq!(k, KeyCodeWrap(57));
}

#[test]
fn key_by_name() {
    assert_eq!(KeyCodeWrap::from_name("BTN_LEFT").unwrap().code(), 0x110);
    assert_eq!(KeyCodeWrap::from_name("KEY_SPACE").unwrap().code(), 57);
    let k = KeyCodeWrap::from_value(&KeyCodeValue::Str("KEY_Z".to_string())).unwrap();
    assert_eq!(k.code(), 44);
}

#[test]
fn unknown_key_name_rejected() {
    match KeyCodeWrap::from_name("KEY_FOOBAR") {
        Err(TriggerError::UnsupportedKeycode { keycode }) => assert_eq!(keycode, "KEY_FOOBAR"),
        other => panic!("unexpected: {:?}", other),
    }
    match KeyCodeWrap::from_value(&KeyCodeValue::Str("btn_left".to_string())) {
        Err(TriggerError::UnsupportedKeycode { keycode }) => assert_eq!(keycode, "btn_left"),
        other => panic!("unexpected: {:?}", other),
    }
}
