//! The monotonic millisecond timestamp and its wrapping arithmetic.
//!
//! A hardware timer interrupt increments a free-running 32-bit counter;
//! the polling loop reads it and hands the value to the controller as a
//! [`Millis`].  The counter wraps after about 49.7 days, so elapsed time
//! is always computed as `current.wrapping_sub(reference)`, which is
//! exact for any two readings taken within one wrap period.
//!
//! The timer tick itself runs faster than one millisecond; the counter
//! must therefore be advanced by a per-tick increment chosen so that
//! whole milliseconds accumulate exactly.  [`millis_increment`] computes
//! that increment and carries the exactness as its contract.

use vstd::prelude::*;

verus! {

/// One more than the largest counter value: the modulus of the wrapping
/// timestamp arithmetic.
pub const COUNTER_RANGE: u64 = 0x1_0000_0000;

/// A wrapping 32-bit timestamp, in milliseconds since controller start.
#[derive(Clone, Copy, Debug, Eq, Ord, PartialEq, PartialOrd, Structural)]
pub struct Millis(pub u32);

/// The counter value reached by advancing `a` by `b` with wraparound.
pub open spec fn wrap_add(a: u32, b: u32) -> u32 {
    ((a + b) % (COUNTER_RANGE as int)) as u32
}

/// The elapsed count from reading `b` to reading `a`, modulo the counter
/// range: the true elapsed time whenever less than one wrap period passed
/// between the two readings.
pub open spec fn wrap_sub(a: u32, b: u32) -> u32 {
    ((a - b) % (COUNTER_RANGE as int)) as u32
}

impl Millis {
    /// Wrapping addition of two millisecond counts.
    pub fn wrapping_add(self, rhs: Self) -> (r: Self)
        ensures
            r.0 == wrap_add(self.0, rhs.0),
    {
        proof {
            lemma_wrap_add_cases(self.0, rhs.0);
        }
        Millis(self.0.wrapping_add(rhs.0))
    }

    /// Wrapping subtraction: `current.wrapping_sub(reference)` is the
    /// time elapsed between the two readings, robust to the counter
    /// having wrapped in between.
    pub fn wrapping_sub(self, rhs: Self) -> (r: Self)
        ensures
            r.0 == wrap_sub(self.0, rhs.0),
    {
        proof {
            lemma_wrap_sub_cases(self.0, rhs.0);
        }
        Millis(self.0.wrapping_sub(rhs.0))
    }
}

/// `wrap_add` in case form: plain addition until the counter overflows,
/// then reduced by one full range.
pub proof fn lemma_wrap_add_cases(a: u32, b: u32)
    ensures
        a + b < COUNTER_RANGE ==> wrap_add(a, b) == a + b,
        a + b >= COUNTER_RANGE ==> wrap_add(a, b) == a + b - COUNTER_RANGE,
{
    if a + b < COUNTER_RANGE {
        vstd::arithmetic::div_mod::lemma_small_mod((a + b) as nat, COUNTER_RANGE as nat);
    } else {
        vstd::arithmetic::div_mod::lemma_mod_sub_multiples_vanish(a + b, COUNTER_RANGE as int);
        vstd::arithmetic::div_mod::lemma_small_mod((a + b - COUNTER_RANGE) as nat, COUNTER_RANGE as nat);
    }
}

/// `wrap_sub` in case form: the numeric difference when no wrap lies
/// between the readings, and the difference plus one full range when the
/// counter wrapped (`a < b` numerically).
pub proof fn lemma_wrap_sub_cases(a: u32, b: u32)
    ensures
        a >= b ==> wrap_sub(a, b) == a - b,
        a < b ==> wrap_sub(a, b) == a - b + COUNTER_RANGE,
{
    if a >= b {
        vstd::arithmetic::div_mod::lemma_small_mod((a - b) as nat, COUNTER_RANGE as nat);
    } else {
        vstd::arithmetic::div_mod::lemma_mod_add_multiples_vanish(a - b, COUNTER_RANGE as int);
        vstd::arithmetic::div_mod::lemma_small_mod((a - b + COUNTER_RANGE) as nat, COUNTER_RANGE as nat);
    }
}

impl From<u32> for Millis {
    /// Wraps a raw counter value as a timestamp.
    fn from(millis: u32) -> (r: Self) {
        Millis(millis)
    }
}

impl vstd::std_specs::convert::FromSpecImpl<u32> for Millis {
    open spec fn obeys_from_spec() -> bool {
        true
    }

    open spec fn from_spec(millis: u32) -> Millis {
        Millis(millis)
    }
}

impl From<Millis> for u32 {
    /// Unwraps a timestamp to its raw counter value.
    fn from(millis: Millis) -> (r: Self) {
        millis.0
    }
}

impl vstd::std_specs::convert::FromSpecImpl<Millis> for u32 {
    open spec fn obeys_from_spec() -> bool {
        true
    }

    open spec fn from_spec(millis: Millis) -> u32 {
        millis.0
    }
}

/// Wraparound correctness: a timestamp advanced by `elapsed` counts and
/// then subtracted from gives back exactly `elapsed`, whether or not the
/// counter wrapped in between.  Together with [`lemma_wrap_sub_cases`]
/// this pins `wrapping_sub` as the true elapsed time modulo the counter
/// range for every pair of readings.
pub proof fn lemma_elapsed_roundtrip(reference: Millis, elapsed: u32)
    ensures
        wrap_sub(wrap_add(reference.0, elapsed), reference.0) == elapsed,
{
    lemma_wrap_add_cases(reference.0, elapsed);
    lemma_wrap_sub_cases(wrap_add(reference.0, elapsed), reference.0);
}

/// The hardware timer's clock prescale factor: how many CPU cycles pass
/// per timer count.
#[derive(Clone, Copy, Debug, Eq, PartialEq, Structural)]
pub enum Prescaler {
    Direct,
    Prescale8,
    Prescale64,
    Prescale256,
    Prescale1024,
}

/// The prescale setting the timer is configured with.
pub const PRESCALER: Prescaler = Prescaler::Prescale1024;

/// The timer's compare value: the tick fires every `TIMER_COUNTS`
/// prescaled counts.
pub const TIMER_COUNTS: u8 = 125;

/// CPU cycles per millisecond on the 16 MHz target.
pub const CYCLES_PER_MS: u32 = 16000;

/// The divisor a prescale setting applies to the CPU clock.
pub open spec fn divisions_spec(prescaler: Prescaler) -> u32 {
    match prescaler {
        Prescaler::Direct => 0,
        Prescaler::Prescale8 => 8,
        Prescaler::Prescale64 => 64,
        Prescaler::Prescale256 => 256,
        Prescaler::Prescale1024 => 1024,
    }
}

/// The divisor a prescale setting applies to the CPU clock
/// ([`divisions_spec`]).
#[must_use]
pub fn divisions(prescaler: Prescaler) -> (r: u32)
    ensures
        r == divisions_spec(prescaler),
{
    match prescaler {
        Prescaler::Direct => 0,
        Prescaler::Prescale8 => 8,
        Prescaler::Prescale64 => 64,
        Prescaler::Prescale256 => 256,
        Prescaler::Prescale1024 => 1024,
    }
}

/// The number of milliseconds the counter must advance by on every timer
/// tick, for the configured prescale factor and compare value.
///
/// The second clause is the numeric-precision contract of the clock: one
/// tick spans `divisions * counts` CPU cycles, and the increment times
/// the cycles-per-millisecond rate equals that span exactly, so whole
/// milliseconds accumulate with no fractional remainder dropped.  A
/// configuration that failed it would silently skew every dwell-time
/// guard downstream.
#[must_use]
pub fn millis_increment() -> (r: u32)
    ensures
        r == divisions_spec(PRESCALER) * TIMER_COUNTS as u32 / CYCLES_PER_MS as int,
        r * CYCLES_PER_MS == divisions_spec(PRESCALER) * TIMER_COUNTS as u32,
{
    divisions(PRESCALER) * TIMER_COUNTS as u32 / CYCLES_PER_MS
}

} // verus!
