//! The per-chat timer value: disabled, or enabled with a positive
//! duration in seconds, together with its integer column encoding.

use vstd::prelude::*;

verus! {

/// Per-chat disappearing-message timer. A zero duration is not
/// representable as `Enabled`: zero encodes `Disabled`.
#[derive(Debug, PartialEq, Eq, Copy, Clone, Structural)]
pub enum Timer {
    Disabled,
    Enabled { duration: u32 },
}

/// A stored timer column held an integer outside `0..=u32::MAX`.
#[derive(Debug, PartialEq, Eq, Copy, Clone, Structural)]
pub struct OutOfRangeError;

impl Timer {
    /// The integer a timer is stored as: 0 for disabled, else the duration.
    pub open spec fn spec_to_u32(self) -> u32 {
        match self {
            Timer::Disabled => 0,
            Timer::Enabled { duration } => duration,
        }
    }

    /// The timer an integer decodes to: 0 is disabled, anything else enabled.
    pub open spec fn spec_from_u32(duration: u32) -> Timer {
        if duration == 0 {
            Timer::Disabled
        } else {
            Timer::Enabled { duration }
        }
    }

    /// Well-formed timers never carry a zero duration.
    pub open spec fn wf(self) -> bool {
        self matches Timer::Enabled { duration } ==> duration != 0
    }

    /// Decoding a signed 64-bit column: 0 is disabled, a value that fits
    /// in `u32` is an enabled duration, anything else is out of range.
    pub open spec fn spec_from_db_value(value: i64) -> Result<Timer, OutOfRangeError> {
        if value == 0 {
            Ok(Timer::Disabled)
        } else if 0 < value <= u32::MAX {
            Ok(Timer::Enabled { duration: value as u32 })
        } else {
            Err(OutOfRangeError)
        }
    }

    #[verifier::when_used_as_spec(spec_to_u32)]
    pub fn to_u32(self) -> (n: u32)
        ensures
            n == self.spec_to_u32(),
    {
        match self {
            Timer::Disabled => 0,
            Timer::Enabled { duration } => duration,
        }
    }

    pub fn from_u32(duration: u32) -> (t: Timer)
        ensures
            t == Timer::spec_from_u32(duration),
            t.wf(),
    {
        if duration == 0 {
            Timer::Disabled
        } else {
            Timer::Enabled { duration }
        }
    }

    /// The signed integer written to the store for this timer.
    pub fn to_db_value(self) -> (v: i64)
        ensures
            v == self.spec_to_u32() as i64,
    {
        self.to_u32() as i64
    }

    /// Decodes a signed integer read from the store.
    pub fn from_db_value(value: i64) -> (r: Result<Timer, OutOfRangeError>)
        ensures
            r == Timer::spec_from_db_value(value),
            r matches Ok(t) ==> t.wf(),
    {
        if value == 0 {
            Ok(Timer::Disabled)
        } else if 1 <= value && value <= u32::MAX as i64 {
            Ok(Timer::Enabled { duration: value as u32 })
        } else {
            Err(OutOfRangeError)
        }
    }
}

impl Default for Timer {
    fn default() -> (t: Self)
        ensures
            t == Timer::Disabled,
    {
        Timer::Disabled
    }
}

/// Round trip of the integer encoding: every `u32` survives decoding
/// and re-encoding, zero decodes to `Disabled`, and every nonzero
/// value decodes to `Enabled` with exactly that duration. A
/// well-formed timer likewise survives encoding and re-decoding.
pub proof fn lemma_timer_round_trip(n: u32, t: Timer)
    requires
        t.wf(),
    ensures
        Timer::spec_from_u32(n).spec_to_u32() == n,
        n == 0 ==> Timer::spec_from_u32(n) == Timer::Disabled,
        n != 0 ==> Timer::spec_from_u32(n) == (Timer::Enabled { duration: n }),
        Timer::spec_from_u32(t.spec_to_u32()) == t,
{
}

/// The store codec agrees with the `u32` encoding wherever the column
/// value fits: decoding succeeds exactly on `0..=u32::MAX`, and the
/// decoded timer re-encodes to the same column value.
pub proof fn lemma_db_value_round_trip(value: i64, t: Timer)
    ensures
        0 <= value <= u32::MAX <==> Timer::spec_from_db_value(value) is Ok,
        Timer::spec_from_db_value(value) matches Ok(d) ==> d.spec_to_u32() == value,
        Timer::spec_from_db_value(t.spec_to_u32() as i64) == Ok::<Timer, OutOfRangeError>(t)
            || !t.wf(),
{
}

} // verus!
