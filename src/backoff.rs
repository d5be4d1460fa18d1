//! Exponential backoff with a small random jitter between attempts.
use vstd::prelude::*;

verus! {

/// The delay before the first retry doubles from this, in milliseconds.
pub const BASE_DELAY_MS: u64 = 500;

/// No delay is longer than this, in milliseconds.
pub const MAX_DELAY_MS: u64 = 10_000;

/// The jitter lies in `0..JITTER_MAX_MS` milliseconds.
pub const JITTER_MAX_MS: u64 = 300;

/// The exponent stops growing here.
pub const EXPONENT_CAP: u32 = 5;

pub open spec fn pow2(e: nat) -> nat
    decreases e,
{
    if e == 0 {
        1
    } else {
        2 * pow2((e - 1) as nat)
    }
}

pub open spec fn capped_exponent(attempt: u32) -> nat {
    if attempt < EXPONENT_CAP {
        attempt as nat
    } else {
        EXPONENT_CAP as nat
    }
}

/// `min(MAX_DELAY_MS, BASE_DELAY_MS * 2^min(attempt, EXPONENT_CAP) + jitter)`.
pub open spec fn delay_ms(attempt: u32, jitter: u64) -> nat {
    let grown = BASE_DELAY_MS * pow2(capped_exponent(attempt)) + jitter;
    if grown < MAX_DELAY_MS {
        grown as nat
    } else {
        MAX_DELAY_MS as nat
    }
}

#[verifier::external_type_specification]
#[verifier::external_body]
pub struct ExSystemTime(std::time::SystemTime);

/// Relies on `std::time::SystemTime::now`: the current wall-clock time, of
/// which nothing is assumed.
pub assume_specification[ std::time::SystemTime::now ]() -> std::time::SystemTime;

/// Relies on `core::time::Duration::subsec_nanos`: the fractional part of a
/// duration in nanoseconds, documented to be less than one billion.
pub assume_specification[ core::time::Duration::subsec_nanos ](d: &core::time::Duration) -> (r: u32)
    ensures
        r < 1_000_000_000,
;

/// Relies on `std::time::SystemTime::duration_since` with `UNIX_EPOCH`: the
/// time elapsed since the epoch, or `None` when the clock stands before it.
#[verifier::external_body]
fn since_epoch(t: &std::time::SystemTime) -> (r: Option<core::time::Duration>) {
    t.duration_since(std::time::UNIX_EPOCH).ok()
}

/// The jitter for a clock reading: its sub-second nanoseconds modulo
/// `JITTER_MAX_MS`, or 0 when the clock stands before the epoch.
pub fn jitter_from_nanos(nanos: Option<u32>) -> (r: u64)
    ensures
        r == match nanos {
            Some(n) => n as u64 % JITTER_MAX_MS,
            None => 0,
        },
        r < JITTER_MAX_MS,
{
    match nanos {
        Some(n) => (n as u64) % JITTER_MAX_MS,
        None => 0,
    }
}

/// A jitter in `0..JITTER_MAX_MS` milliseconds, taken from the low-order
/// part of the wall clock.
pub fn jitter() -> (r: u64)
    ensures
        r < JITTER_MAX_MS,
{
    let now = std::time::SystemTime::now();
    let nanos = match since_epoch(&now) {
        Some(d) => Some(d.subsec_nanos()),
        None => None,
    };
    jitter_from_nanos(nanos)
}

/// The delay in milliseconds after failed attempt `attempt`, for a given
/// jitter.
pub fn delay_for(attempt: u32, jitter: u64) -> (r: u64)
    ensures
        r == delay_ms(attempt, jitter),
{
    let e: u32 = if attempt < EXPONENT_CAP { attempt } else { EXPONENT_CAP };
    let mut grown: u64 = BASE_DELAY_MS;
    let mut i: u32 = 0;
    while i < e
        invariant
            i <= e <= EXPONENT_CAP,
            e == capped_exponent(attempt),
            grown == BASE_DELAY_MS * pow2(i as nat),
        decreases e - i,
    {
        proof {
            lemma_pow2_mono((i + 1) as nat, EXPONENT_CAP as nat);
            reveal_with_fuel(pow2, 6);
        }
        grown = grown * 2;
        i = i + 1;
    }
    if jitter >= MAX_DELAY_MS || grown >= MAX_DELAY_MS - jitter {
        MAX_DELAY_MS
    } else {
        grown + jitter
    }
}

/// The delay in milliseconds to wait after failed attempt `attempt`, with a
/// fresh jitter from the clock.
pub fn compute_backoff(attempt: u32) -> (r: u64)
    ensures
        exists|j: u64| j < JITTER_MAX_MS && r == delay_ms(attempt, j),
        r <= MAX_DELAY_MS,
{
    let j = jitter();
    delay_for(attempt, j)
}

proof fn lemma_pow2_mono(a: nat, b: nat)
    requires
        a <= b,
    ensures
        pow2(a) <= pow2(b),
    decreases b,
{
    if a < b {
        lemma_pow2_mono(a, (b - 1) as nat);
    }
}

/// For one jitter, the delay never shrinks as the attempt number grows, and
/// no delay exceeds `MAX_DELAY_MS`.
pub proof fn lemma_delay_monotone(a1: u32, a2: u32, jitter: u64)
    requires
        a1 <= a2,
    ensures
        delay_ms(a1, jitter) <= delay_ms(a2, jitter),
        delay_ms(a2, jitter) <= MAX_DELAY_MS,
{
    lemma_pow2_mono(capped_exponent(a1), capped_exponent(a2));
    assert(BASE_DELAY_MS * pow2(capped_exponent(a1)) <= BASE_DELAY_MS * pow2(capped_exponent(a2)))
        by (nonlinear_arith)
        requires
            pow2(capped_exponent(a1)) <= pow2(capped_exponent(a2)),
    ;
}

} // verus!
