//! The arithmetic of the ALSA backend: the buffer size asked of the device,
//! and how the interleaved output buffer splits into frames.
use vstd::prelude::*;

verus! {

/// `requested` limited to the range `[min, max]`.
pub open spec fn clamped(requested: u32, min: u32, max: u32) -> u32 {
    if requested < min {
        min
    } else if requested > max {
        max
    } else {
        requested
    }
}

/// The buffer size to ask of the device. When the device reports a range of
/// buffer sizes, the configured size limited to that range; when it reports
/// none, nothing, and the device's default stays.
pub fn choose_buffer_size(requested: u32, supported: Option<(u32, u32)>) -> (r: Option<u32>)
    requires
        supported matches Some((min, max)) ==> min <= max,
    ensures
        r == (match supported {
            Some((min, max)) => Some(clamped(requested, min, max)),
            None => None::<u32>,
        }),
        supported matches Some((min, max)) ==> (r is Some && (requested < min ==> r->0 == min) && (
        requested > max ==> r->0 == max) && (min <= requested <= max ==> r->0 == requested)),
        supported is None ==> r is None,
{
    match supported {
        Some((min, max)) => Some(clamp_buffer(requested, min, max)),
        None => None,
    }
}

/// `requested` limited to `[min, max]`, as `u32::clamp` computes it.
pub fn clamp_buffer(requested: u32, min: u32, max: u32) -> (r: u32)
    requires
        min <= max,
    ensures
        r == clamped(requested, min, max),
        min <= r <= max,
        min <= requested <= max ==> r == requested,
        requested < min ==> r == min,
        requested > max ==> r == max,
{
    if requested < min {
        min
    } else if requested > max {
        max
    } else {
        requested
    }
}

/// Number of frames in an interleaved buffer of `samples` slots with
/// `channels` channels per frame; a last, incomplete frame counts.
pub fn frames_in_buffer(samples: usize, channels: usize) -> (n: usize)
    requires
        channels > 0,
    ensures
        n == (samples as int + channels as int - 1) / channels as int,
        n as int * channels as int >= samples,
        (n as int - 1) * (channels as int) < samples || n == 0,
{
    let q = samples / channels;
    let rem = samples % channels;
    let n = if rem == 0 {
        q
    } else {
        assert(q < usize::MAX) by (nonlinear_arith)
            requires
                channels > 0,
                q == samples / channels,
                rem == samples % channels,
                rem != 0,
        ;
        q + 1
    };
    assert(n == (samples as int + channels as int - 1) / channels as int && n as int
        * channels as int >= samples && ((n as int - 1) * (channels as int) < samples || n == 0))
        by (nonlinear_arith)
        requires
            channels > 0,
            q == samples / channels,
            rem == samples % channels,
            rem == 0 ==> n == q,
            rem != 0 ==> n == q + 1,
    ;
    n
}

/// Limiting to a range is `u32::clamp`: a value below the range becomes its
/// minimum, one above becomes its maximum, one inside stays; the result is
/// the point of the range nearest to the request.
pub proof fn lemma_clamped_is_clamp(requested: u32, min: u32, max: u32)
    requires
        min <= max,
    ensures
        requested < min ==> clamped(requested, min, max) == min,
        requested > max ==> clamped(requested, min, max) == max,
        min <= requested <= max ==> clamped(requested, min, max) == requested,
        forall|x: u32|
            min <= x <= max ==> abs_diff(clamped(requested, min, max), requested) <= #[trigger] abs_diff(
                x,
                requested,
            ),
{
}

/// The distance between two numbers.
pub open spec fn abs_diff(a: u32, b: u32) -> int {
    if a >= b {
        a - b
    } else {
        b - a
    }
}

} // verus!
