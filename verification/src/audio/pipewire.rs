//! The arithmetic and text of the PipeWire backend.
//!
//! A PipeWire stream is created with a `node.latency` property of the form
//! `quantum/rate`. Once the stream runs, the quantum the server actually
//! granted is read back from the same property and becomes the number of
//! frames written per process call. Each frame is two interleaved `f32`
//! channels.
use vstd::prelude::*;

use crate::decimal::{
    append_decimal, decimal, is_digit, lemma_decimal_digits, lemma_decimal_parse_roundtrip,
    parse_u32_prefix, u32_from_text,
};

verus! {

/// Channels per frame of the PipeWire stream.
pub const PW_CHANNELS: usize = 2;

/// Bytes per frame of the PipeWire stream: two `f32` channels.
pub const PW_STRIDE: usize = 8;

/// The quantum in a `node.latency` value: the text before the first `/`,
/// parsed as a `u32`; nothing when there is no `/` or the text is no number.
pub open spec fn quantum_of(latency: Seq<char>) -> Option<u32> {
    match latency.index_of_first('/') {
        Some(i) => u32_from_text(latency.take(i)),
        None => None,
    }
}

/// The `node.latency` value asked for: `buffer/rate` in decimal.
pub open spec fn node_latency_text(buffer: nat, rate: nat) -> Seq<char> {
    decimal(buffer) + seq!['/'] + decimal(rate)
}

/// The `node.latency` property for a stream: `buffer/rate`.
pub fn node_latency(buffer: u32, rate: u32) -> (s: String)
    ensures
        s@ == node_latency_text(buffer as nat, rate as nat),
        s@ == decimal(buffer as nat) + seq!['/'] + decimal(rate as nat),
{
    let mut s = String::new();
    append_decimal(&mut s, buffer);
    proof {
        reveal_strlit("/");
    }
    s.append("/");
    append_decimal(&mut s, rate);
    proof {
        assert(s@ =~= node_latency_text(buffer as nat, rate as nat));
    }
    s
}

/// The quantum that a `node.latency` value holds, if it holds one.
pub fn quantum_from_latency(latency: &str) -> (q: Option<u32>)
    ensures
        q == quantum_of(latency@),
{
    let n = latency.unicode_len();
    let mut slash: Option<usize> = None;
    let mut i: usize = 0;
    while i < n
        invariant
            i <= n,
            n == latency@.len(),
            slash is None ==> forall|j: int| 0 <= j < i ==> latency@[j] != '/',
            slash matches Some(k) ==> k < n && latency@[k as int] == '/' && forall|j: int|
                0 <= j < k ==> latency@[j] != '/',
        decreases n - i,
    {
        if slash.is_none() && latency.get_char(i) == '/' {
            slash = Some(i);
        }
        i = i + 1;
    }
    proof {
        latency@.index_of_first_ensures('/');
    }
    match slash {
        Some(k) => {
            proof {
                let f = latency@.index_of_first('/');
                assert(latency@.contains('/'));
                assert(f == Some(k as int));
            }
            parse_u32_prefix(latency, k)
        },
        None => None,
    }
}

/// Reading back a `node.latency` value written by [`node_latency`] gives
/// the buffer size it was written with.
pub proof fn lemma_latency_roundtrip(buffer: u32, rate: u32)
    ensures
        quantum_of(node_latency_text(buffer as nat, rate as nat)) == Some(buffer),
{
    let b = decimal(buffer as nat);
    let s = node_latency_text(buffer as nat, rate as nat);
    lemma_decimal_digits(buffer as nat);
    s.index_of_first_ensures('/');
    assert(s[b.len() as int] == '/');
    assert forall|j: int| 0 <= j < b.len() implies s[j] != '/' by {
        assert(s[j] == b[j]);
        assert(is_digit(b[j]));
    }
    let f = s.index_of_first('/');
    assert(f == Some(b.len() as int));
    assert(s.take(b.len() as int) =~= b);
}

/// The buffer size once the stream's granted latency is known: the quantum
/// of the stream's `node.latency` property when it holds one, else the size
/// the stream was set up with.
pub fn buffer_after_autoconf(current: u32, latency: Option<&str>) -> (b: u32)
    ensures
        b == match latency {
            Some(text) => match quantum_of(text@) {
                Some(q) => q,
                None => current,
            },
            None => current,
        },
{
    match latency {
        Some(text) => match quantum_from_latency(text) {
            Some(q) => q,
            None => current,
        },
        None => current,
    }
}

/// Number of interleaved `f32` slots for `frames` stereo frames.
pub fn interleaved_len(frames: u32) -> (n: usize)
    requires
        frames as int * 2 <= usize::MAX,
    ensures
        n == frames as int * 2,
{
    frames as usize * PW_CHANNELS
}

/// The byte size reported in a buffer's chunk for `frames` frames: the
/// product is taken modulo 2^32, as the chunk field is 32 bits wide.
pub fn chunk_size_bytes(frames: u32) -> (b: u32)
    ensures
        b == (frames as int * 8) % 0x1_0000_0000,
{
    frames.wrapping_mul(8)
}

/// The `node.latency` text holds both numbers as written: the part before
/// the first `/` parses back to the buffer size and the part after it to the
/// sample rate, in Hz.
pub proof fn lemma_latency_text_parts(buffer: u32, rate: u32)
    ensures
        ({
            let s = node_latency_text(buffer as nat, rate as nat);
            let cut = decimal(buffer as nat).len() as int;
            &&& s[cut] == '/'
            &&& u32_from_text(s.take(cut)) == Some(buffer)
            &&& u32_from_text(s.skip(cut + 1)) == Some(rate)
            &&& quantum_of(s) == Some(buffer)
        }),
{
    let b = decimal(buffer as nat);
    let s = node_latency_text(buffer as nat, rate as nat);
    lemma_latency_roundtrip(buffer, rate);
    lemma_decimal_parse_roundtrip(buffer);
    lemma_decimal_parse_roundtrip(rate);
    assert(s.take(b.len() as int) =~= b);
    assert(s.skip(b.len() as int + 1) =~= decimal(rate as nat));
}

} // verus!
