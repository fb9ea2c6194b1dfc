//! Rendering of a non-negative millisecond duration in the `H:M:S.mmm` shape
//! the external tools take: hours, minutes and seconds unpadded, the
//! leftover milliseconds as a bare integer (`6065125` renders as
//! `1:41:5.125`, `128000` as `0:2:8.0`).
use vstd::prelude::*;

use crate::numfmt::{spec_dec_digits, u64_to_dec_string};

verus! {

pub const MS_PER_SECOND: u64 = 1000;

pub const MS_PER_MINUTE: u64 = 60000;

pub const MS_PER_HOUR: u64 = 3600000;

/// The whole hours of a duration in milliseconds.
pub open spec fn spec_hours(ms: nat) -> nat {
    ms / 3600000
}

/// The minutes left over under the whole hours.
pub open spec fn spec_minutes(ms: nat) -> nat {
    (ms / 60000) % 60
}

/// The seconds left over under the whole minutes.
pub open spec fn spec_seconds(ms: nat) -> nat {
    (ms / 1000) % 60
}

/// The milliseconds left over under the whole seconds.
pub open spec fn spec_millis(ms: nat) -> nat {
    ms % 1000
}

/// A duration rendered as `H:M:S.mmm`: each unit truncated to an integer,
/// none of them padded.
pub open spec fn spec_duration_string(ms: nat) -> Seq<char> {
    spec_dec_digits(spec_hours(ms)) + seq![':'] + spec_dec_digits(spec_minutes(ms)) + seq![':']
        + spec_dec_digits(spec_seconds(ms)) + seq!['.'] + spec_dec_digits(spec_millis(ms))
}

/// Renders a duration in milliseconds as `H:M:S.mmm`.
pub fn duration_to_string(ms: u64) -> (s: String)
    ensures
        s@ == spec_duration_string(ms as nat),
{
    proof {
        reveal_strlit(":");
        reveal_strlit(".");
    }
    let mut s = u64_to_dec_string(ms / MS_PER_HOUR);
    s.append(":");
    let minutes = u64_to_dec_string((ms / MS_PER_MINUTE) % 60);
    s.append(minutes.as_str());
    s.append(":");
    let seconds = u64_to_dec_string((ms / MS_PER_SECOND) % 60);
    s.append(seconds.as_str());
    s.append(".");
    let millis = u64_to_dec_string(ms % MS_PER_SECOND);
    s.append(millis.as_str());
    proof {
        assert(s@ =~= spec_duration_string(ms as nat));
    }
    s
}

/// The four rendered components determine the duration again: minutes,
/// seconds and milliseconds stay under their unit's bound, and recombining
/// them yields the original count, so no two durations render alike.
pub proof fn lemma_duration_components_round_trip(ms: nat)
    ensures
        spec_minutes(ms) < 60,
        spec_seconds(ms) < 60,
        spec_millis(ms) < 1000,
        ((spec_hours(ms) * 60 + spec_minutes(ms)) * 60 + spec_seconds(ms)) * 1000 + spec_millis(
            ms,
        ) == ms,
{
    vstd::arithmetic::div_mod::lemma_fundamental_div_mod(ms as int, 1000);
    vstd::arithmetic::div_mod::lemma_fundamental_div_mod(ms as int / 1000, 60);
    vstd::arithmetic::div_mod::lemma_fundamental_div_mod(ms as int / 1000 / 60, 60);
    vstd::arithmetic::div_mod::lemma_div_denominator(ms as int, 1000, 60);
    vstd::arithmetic::div_mod::lemma_div_denominator(ms as int, 60000, 60);
    assert(ms as int / 60000 == ms as int / 1000 / 60) by {
        vstd::arithmetic::div_mod::lemma_div_denominator(ms as int, 1000, 60);
    }
    assert(ms as int / 3600000 == ms as int / 60000 / 60) by {
        vstd::arithmetic::div_mod::lemma_div_denominator(ms as int, 60000, 60);
    }
}

} // verus!
