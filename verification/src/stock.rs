//! Rendering of a timer value into the human-readable change notice,
//! with adaptive units and half-up rounding on the tenths place.

use vstd::prelude::*;
use vstd::string::StringExecFns;

use crate::timer::Timer;

verus! {

/// The unit bucket a duration renders with.
#[derive(Debug, PartialEq, Eq, Copy, Clone, Structural)]
pub enum RenderUnit {
    Seconds,
    Minute,
    Minutes,
    Hour,
    Hours,
    Day,
    Days,
    Week,
    Weeks,
}

/// Which unit a duration in seconds renders with: exact unit marks
/// (one minute, hour, day, week) get their own wording, ranges in
/// between use a tenths fraction of the next-larger unit.
pub open spec fn spec_render_unit(duration: u32) -> RenderUnit {
    if duration <= 59 {
        RenderUnit::Seconds
    } else if duration == 60 {
        RenderUnit::Minute
    } else if duration <= 3599 {
        RenderUnit::Minutes
    } else if duration == 3600 {
        RenderUnit::Hour
    } else if duration <= 86399 {
        RenderUnit::Hours
    } else if duration == 86400 {
        RenderUnit::Day
    } else if duration <= 604799 {
        RenderUnit::Days
    } else if duration == 604800 {
        RenderUnit::Week
    } else {
        RenderUnit::Weeks
    }
}

/// The decimal digit characters.
pub open spec fn spec_digit(d: nat) -> char {
    if d == 0 {
        '0'
    } else if d == 1 {
        '1'
    } else if d == 2 {
        '2'
    } else if d == 3 {
        '3'
    } else if d == 4 {
        '4'
    } else if d == 5 {
        '5'
    } else if d == 6 {
        '6'
    } else if d == 7 {
        '7'
    } else if d == 8 {
        '8'
    } else {
        '9'
    }
}

/// Decimal rendering of a natural number, most significant digit first.
pub open spec fn spec_dec(n: nat) -> Seq<char>
    decreases n,
{
    if n < 10 {
        seq![spec_digit(n)]
    } else {
        spec_dec(n / 10) + seq![spec_digit(n % 10)]
    }
}

/// The duration expressed in tenths of the given unit, rounded half
/// up: with the unit's half added first, flooring rounds to nearest.
pub open spec fn spec_tenths(duration: u32, unit: int) -> nat
    recommends
        2 <= unit,
{
    (((duration as int) + unit / 2) / unit) as nat
}

/// A tenths count rendered as a decimal number: the whole part alone
/// when the fraction is zero, else whole part, dot and one digit.
pub open spec fn spec_fraction(tenths: nat) -> Seq<char> {
    if tenths % 10 == 0 {
        spec_dec(tenths / 10)
    } else {
        spec_dec(tenths / 10) + "."@ + seq![spec_digit(tenths % 10)]
    }
}

/// The amount-and-unit part of the notice for an enabled duration.
pub open spec fn spec_middle(duration: u32) -> Seq<char> {
    match spec_render_unit(duration) {
        RenderUnit::Seconds => spec_dec(duration as nat) + " s"@,
        RenderUnit::Minute => "1 minute"@,
        RenderUnit::Minutes => spec_fraction(spec_tenths(duration, 6)) + " minutes"@,
        RenderUnit::Hour => "1 hour"@,
        RenderUnit::Hours => spec_fraction(spec_tenths(duration, 360)) + " hours"@,
        RenderUnit::Day => "1 day"@,
        RenderUnit::Days => spec_fraction(spec_tenths(duration, 8640)) + " days"@,
        RenderUnit::Week => "1 week"@,
        RenderUnit::Weeks => spec_fraction(spec_tenths(duration, 60480)) + " weeks"@,
    }
}

/// The full stock notice saying the actor changed the timer.
pub open spec fn spec_timer_message(timer: Timer, actor: Seq<char>) -> Seq<char> {
    match timer {
        Timer::Disabled => "Message deletion timer is disabled by "@ + actor + "."@,
        Timer::Enabled { duration } => "Message deletion timer is set to "@ + spec_middle(duration)
            + " by "@ + actor + "."@,
    }
}

/// The boundary durations around each unit mark land in the buckets
/// the table prescribes: 59 is still seconds while 61 is already a
/// minutes fraction, and likewise around one hour, day and week.
pub proof fn lemma_render_unit_boundaries()
    ensures
        spec_render_unit(59) == RenderUnit::Seconds,
        spec_render_unit(60) == RenderUnit::Minute,
        spec_render_unit(61) == RenderUnit::Minutes,
        spec_render_unit(3599) == RenderUnit::Minutes,
        spec_render_unit(3600) == RenderUnit::Hour,
        spec_render_unit(3601) == RenderUnit::Hours,
        spec_render_unit(86399) == RenderUnit::Hours,
        spec_render_unit(86400) == RenderUnit::Day,
        spec_render_unit(86401) == RenderUnit::Days,
        spec_render_unit(604799) == RenderUnit::Days,
        spec_render_unit(604800) == RenderUnit::Week,
        spec_render_unit(604801) == RenderUnit::Weeks,
{
}

/// The one-character string of a decimal digit.
fn digit_str(d: u64) -> (r: &'static str)
    requires
        d < 10,
    ensures
        r@ == seq![spec_digit(d as nat)],
{
    if d == 0 {
        proof {
            reveal_strlit("0");
        }
        "0"
    } else if d == 1 {
        proof {
            reveal_strlit("1");
        }
        "1"
    } else if d == 2 {
        proof {
            reveal_strlit("2");
        }
        "2"
    } else if d == 3 {
        proof {
            reveal_strlit("3");
        }
        "3"
    } else if d == 4 {
        proof {
            reveal_strlit("4");
        }
        "4"
    } else if d == 5 {
        proof {
            reveal_strlit("5");
        }
        "5"
    } else if d == 6 {
        proof {
            reveal_strlit("6");
        }
        "6"
    } else if d == 7 {
        proof {
            reveal_strlit("7");
        }
        "7"
    } else if d == 8 {
        proof {
            reveal_strlit("8");
        }
        "8"
    } else {
        proof {
            reveal_strlit("9");
        }
        "9"
    }
}

/// Appends the decimal rendering of `n`.
fn push_dec(s: &mut String, n: u64)
    ensures
        final(s)@ == old(s)@ + spec_dec(n as nat),
    decreases n,
{
    let ghost s0 = s@;
    if n >= 10 {
        push_dec(s, n / 10);
    }
    s.append(digit_str(n % 10));
    assert(s@ =~= s0 + spec_dec(n as nat));
}

/// Appends a tenths count as a decimal number with at most one
/// fractional digit.
fn push_fraction(s: &mut String, tenths: u64)
    ensures
        final(s)@ == old(s)@ + spec_fraction(tenths as nat),
{
    let ghost s0 = s@;
    push_dec(s, tenths / 10);
    if tenths % 10 != 0 {
        s.append(".");
        s.append(digit_str(tenths % 10));
    }
    assert(s@ =~= s0 + spec_fraction(tenths as nat));
}

/// Appends the duration counted in rounded tenths of the unit.
fn push_tenths(s: &mut String, duration: u32, unit: u64)
    requires
        2 <= unit <= 60480,
    ensures
        final(s)@ == old(s)@ + spec_fraction(spec_tenths(duration, unit as int)),
{
    let tenths: u64 = (duration as u64 + unit / 2) / unit;
    push_fraction(s, tenths);
}

/// Builds the stock text saying that the named actor changed the
/// timer: the localization collaborator's default English wording,
/// with the numeric fragment rounded half up on the tenths place.
pub fn stock_ephemeral_timer_changed(timer: Timer, actor: &str) -> (r: String)
    ensures
        r@ == spec_timer_message(timer, actor@),
{
    let mut s = String::new();
    match timer {
        Timer::Disabled => {
            s.append("Message deletion timer is disabled by ");
        },
        Timer::Enabled { duration } => {
            s.append("Message deletion timer is set to ");
            if duration <= 59 {
                push_dec(&mut s, duration as u64);
                s.append(" s");
            } else if duration == 60 {
                s.append("1 minute");
            } else if duration <= 3599 {
                push_tenths(&mut s, duration, 6);
                s.append(" minutes");
            } else if duration == 3600 {
                s.append("1 hour");
            } else if duration <= 86399 {
                push_tenths(&mut s, duration, 360);
                s.append(" hours");
            } else if duration == 86400 {
                s.append("1 day");
            } else if duration <= 604799 {
                push_tenths(&mut s, duration, 8640);
                s.append(" days");
            } else if duration == 604800 {
                s.append("1 week");
            } else {
                push_tenths(&mut s, duration, 60480);
                s.append(" weeks");
            }
            s.append(" by ");
        },
    }
    s.append(actor);
    s.append(".");
    assert(s@ =~= spec_timer_message(timer, actor@));
    s
}

} // verus!
