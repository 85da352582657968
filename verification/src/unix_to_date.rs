//! Uptime as text: a count of seconds written as days, hours, minutes and
//! seconds.
use vstd::prelude::*;

use crate::decimal::{decimal, push_decimal};

verus! {

/// Whole days in `sec` seconds.
pub open spec fn days_of(sec: nat) -> nat {
    sec / 86400
}

/// Hours left over after the whole days.
pub open spec fn hours_of(sec: nat) -> nat {
    (sec / 3600) % 24
}

/// Minutes left over after the whole hours.
pub open spec fn minutes_of(sec: nat) -> nat {
    (sec / 60) % 60
}

/// Seconds left over after the whole minutes.
pub open spec fn seconds_of(sec: nat) -> nat {
    sec % 60
}

/// The text `"<d> days <h> hours <m> minutes <s> seconds"` for `sec` seconds.
pub open spec fn uptime_text(sec: nat) -> Seq<char> {
    decimal(days_of(sec)) + " days "@ + decimal(hours_of(sec)) + " hours "@
        + decimal(minutes_of(sec)) + " minutes "@ + decimal(seconds_of(sec)) + " seconds"@
}

/// The parts of an uptime add back up to it, and each part below the days is
/// smaller than the unit above it.
pub proof fn lemma_uptime_parts_recombine(sec: nat)
    ensures
        days_of(sec) * 86400 + hours_of(sec) * 3600 + minutes_of(sec) * 60 + seconds_of(sec)
            == sec,
        hours_of(sec) < 24,
        minutes_of(sec) < 60,
        seconds_of(sec) < 60,
{
    let q: nat = sec / 60;
    let h: nat = q / 60;
    assert(sec == q * 60 + sec % 60);
    assert(q == h * 60 + q % 60);
    assert(h == (h / 24) * 24 + h % 24);
    assert(sec / 3600 == h) by {
        vstd::arithmetic::div_mod::lemma_div_denominator(sec as int, 60, 60);
    }
    assert(sec / 86400 == h / 24) by {
        vstd::arithmetic::div_mod::lemma_div_denominator(sec as int, 3600, 24);
    }
}

/// Writes `sec` seconds of uptime as
/// `"<days> days <hours> hours <minutes> minutes <seconds> seconds"`.
pub fn new(sec: u64) -> (text: String)
    ensures
        text@ == uptime_text(sec as nat),
{
    let mut total_seconds: u64 = sec;
    let days: u64 = total_seconds / 86400;
    total_seconds %= 86400;
    let hours: u64 = total_seconds / 3600;
    total_seconds %= 3600;
    let minutes: u64 = total_seconds / 60;
    total_seconds %= 60;
    let seconds: u64 = total_seconds;
    proof {
        let s: int = sec as int;
        assert((s % 86400) / 3600 == (s / 3600) % 24) by {
            vstd::arithmetic::div_mod::lemma_div_denominator(s, 3600, 24);
            vstd::arithmetic::div_mod::lemma_mod_breakdown(s, 3600, 24);
        }
        assert((s % 86400) % 3600 == s % 3600) by {
            vstd::arithmetic::div_mod::lemma_mod_mod(s, 3600, 24);
        }
        assert((s % 3600) / 60 == (s / 60) % 60) by {
            vstd::arithmetic::div_mod::lemma_div_denominator(s, 60, 60);
            vstd::arithmetic::div_mod::lemma_mod_breakdown(s, 60, 60);
        }
        assert((s % 3600) % 60 == s % 60) by {
            vstd::arithmetic::div_mod::lemma_mod_mod(s, 60, 60);
        }
    }
    let mut text = String::new();
    push_decimal(&mut text, days);
    text.append(" days ");
    push_decimal(&mut text, hours);
    text.append(" hours ");
    push_decimal(&mut text, minutes);
    text.append(" minutes ");
    push_decimal(&mut text, seconds);
    text.append(" seconds");
    text
}

/// The uptime text shows, in order, a count of days, of hours below 24, of
/// minutes below 60 and of seconds below 60 that add back up to the uptime.
pub proof fn lemma_uptime_text_shows_parts(sec: nat) -> (parts: (nat, nat, nat, nat))
    ensures
        parts.0 * 86400 + parts.1 * 3600 + parts.2 * 60 + parts.3 == sec,
        parts.1 < 24,
        parts.2 < 60,
        parts.3 < 60,
        uptime_text(sec) == decimal(parts.0) + " days "@ + decimal(parts.1) + " hours "@
            + decimal(parts.2) + " minutes "@ + decimal(parts.3) + " seconds"@,
{
    lemma_uptime_parts_recombine(sec);
    (days_of(sec), hours_of(sec), minutes_of(sec), seconds_of(sec))
}

} // verus!
