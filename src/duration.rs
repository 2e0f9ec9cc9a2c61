use vstd::prelude::*;
use crate::text::{two_digit, two_digit_string};

verus! {

/// The largest number of seconds that a chrono time delta can hold.
pub const MAX_DURATION_SECONDS: i64 = 9223372036854775;

/// Relies on chrono's `TimeDelta::seconds` and `TimeDelta::num_hours`: the
/// whole hours of a delta, truncated (the constructor panics past
/// `i64::MAX / 1000` seconds).
#[verifier::external_body]
fn delta_hours(seconds: i64) -> (r: i64)
    requires
        0 <= seconds <= MAX_DURATION_SECONDS,
    ensures
        r == seconds / 3600,
{
    chrono::Duration::seconds(seconds).num_hours()
}

/// Relies on chrono's `TimeDelta::num_minutes`: the whole minutes of a delta, truncated.
#[verifier::external_body]
fn delta_minutes(seconds: i64) -> (r: i64)
    requires
        0 <= seconds <= MAX_DURATION_SECONDS,
    ensures
        r == seconds / 60,
{
    chrono::Duration::seconds(seconds).num_minutes()
}

/// Relies on chrono's `TimeDelta::num_seconds`: a delta made of whole seconds
/// gives them back.
#[verifier::external_body]
fn delta_seconds(seconds: i64) -> (r: i64)
    requires
        0 <= seconds <= MAX_DURATION_SECONDS,
    ensures
        r == seconds,
{
    chrono::Duration::seconds(seconds).num_seconds()
}

/// `HH:MM:SS` for an elapsed number of seconds; hours past 99 take more digits.
pub open spec fn duration_text(seconds: nat) -> Seq<char> {
    two_digit(seconds / 3600) + seq![':'] + two_digit((seconds / 60) % 60) + seq![':']
        + two_digit(seconds % 60)
}

/// Renders an elapsed number of seconds as `HH:MM:SS`.
pub fn format_duration(seconds: i64) -> (r: String)
    requires
        0 <= seconds <= MAX_DURATION_SECONDS,
    ensures
        r@ == duration_text(seconds as nat),
{
    let hours = delta_hours(seconds);
    let minutes = delta_minutes(seconds) % 60;
    let secs = delta_seconds(seconds) % 60;
    proof {
        reveal_strlit(":");
    }
    let mut s = two_digit_string(hours as u64);
    s.append(":");
    s.append(two_digit_string(minutes as u64).as_str());
    s.append(":");
    s.append(two_digit_string(secs as u64).as_str());
    assert(s@ =~= duration_text(seconds as nat));
    s
}

/// Up to 99 hours, the rendered duration has exactly two digits in each field.
pub proof fn duration_text_shape(seconds: nat)
    requires
        seconds < 360000,
    ensures
        duration_text(seconds).len() == 8,
        duration_text(seconds)[2] == ':',
        duration_text(seconds)[5] == ':',
{
    reveal_with_fuel(crate::text::decimal, 3);
    assert(seconds / 3600 < 100) by (nonlinear_arith)
        requires seconds < 360000;
    lemma_two_digit_len(seconds / 3600);
    lemma_two_digit_len((seconds / 60) % 60);
    lemma_two_digit_len(seconds % 60);
}

proof fn lemma_two_digit_len(n: nat)
    requires
        n < 100,
    ensures
        two_digit(n).len() == 2,
{
    reveal_with_fuel(crate::text::decimal, 3);
}

} // verus!
