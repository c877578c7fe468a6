use audio_latency_tester::audio::pipewire::{
    buffer_after_autoconf, chunk_size_bytes, interleaved_len, node_latency, quantum_from_latency,
    PW_CHANNELS, PW_STRIDE,
};
use audio_latency_tester::decimal::{append_decimal, parse_u32_prefix};

#[test]
fn node_latency_text() {
    assert_eq!(node_latency(32, 44100), "32/44100");
    assert_eq!(node_latency(0, 0), "0/0");
    assert_eq!(node_latency(u32::MAX, 384000), "4294967295/384000");
}

#[test]
fn decimal_appends() {
    let mut s = String::from("x=");
    append_decimal(&mut s, 1050);
    assert_eq!(s, "x=1050");
    let mut z = String::new();
    append_decimal(&mut z, 0);
    append_decimal(&mut z, u32::MAX);
    assert_eq!(z, "04294967295");
}

#[test]
fn quantum_roundtrip() {
    for (b, r) in [(0u32, 44100u32), (7, 48000), (256, 384000), (u32::MAX, 1)] {
        assert_eq!(quantum_from_latency(&node_latency(b, r)), Some(b));
    }
}

#[test]
fn quantum_parsing() {
    assert_eq!(quantum_from_latency("1024/48000"), Some(1024));
    assert_eq!(quantum_from_latency("+64/48000"), Some(64));
    assert_eq!(quantum_from_latency("064/48000"), Some(64));
    assert_eq!(quantum_from_latency("1024"), None);
    assert_eq!(quantum_from_latency("/48000"), None);
    assert_eq!(quantum_from_latency("+/48000"), None);
    assert_eq!(quantum_from_latency("-1/48000"), None);
    assert_eq!(quantum_from_latency("12a/48000"), None);
    assert_eq!(quantum_from_latency("4294967295/1"), Some(u32::MAX));
    assert_eq!(quantum_from_latency("4294967296/1"), None);
    assert_eq!(quantum_from_latency("99999999999/1"), None);
    assert_eq!(quantum_from_latency("8/16/2"), Some(8));
    assert_eq!(quantum_from_latency(""), None);
}

#[test]
fn quantum_parsing_agrees_with_std() {
    for s in ["0", "+0", "00012", "", "+", "-3", "4294967295", "4294967296", "1x", " 1", "+-1"] {
        let text = format!("{}/48000", s);
        assert_eq!(quantum_from_latency(&text), s.parse::<u32>().ok(), "{}", s);
    }
}

#[test]
fn prefix_parse() {
    assert_eq!(parse_u32_prefix("123456", 3), Some(123));
    assert_eq!(parse_u32_prefix("123456", 0), None);
}

#[test]
fn autoconf_buffer() {
    assert_eq!(buffer_after_autoconf(512, Some("128/48000")), 128);
    assert_eq!(buffer_after_autoconf(512, Some("garbage")), 512);
    assert_eq!(buffer_after_autoconf(512, None), 512);
}

#[test]
fn stream_sizes() {
    assert_eq!(PW_CHANNELS, 2);
    assert_eq!(PW_STRIDE, std::mem::size_of::<f32>() * 2);
    assert_eq!(interleaved_len(32), 64);
    assert_eq!(chunk_size_bytes(32), 256);
    assert_eq!(chunk_size_bytes(0x2000_0000), 0);
    assert_eq!(chunk_size_bytes(0x2000_0001), 8);
}

#[test]
fn decimal_text_parses_back() {
    for n in [0u32, 9, 10, 99, 100, 65535, u32::MAX] {
        let mut s = String::new();
        append_decimal(&mut s, n);
        assert_eq!(parse_u32_prefix(&s, s.chars().count()), Some(n));
    }
}
