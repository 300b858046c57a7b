//! Human-friendly durations such as `5s` or `1h 12min`, parsed by the
//! `humantime` crate.

use vstd::prelude::*;

verus! {

/// Declares `humantime::DurationError` so that it can stand in signatures.
#[verifier::external_type_specification]
#[verifier::external_body]
pub struct ExDurationError(humantime::DurationError);

/// The duration, as whole seconds and the nanoseconds past them, that
/// `humantime::parse_duration` reads from a text, or none when it rejects
/// the text.
pub uninterp spec fn humantime_duration(s: Seq<char>) -> Option<(u64, u32)>;

/// The number of ASCII digits in a text.
pub open spec fn digit_count(s: Seq<char>) -> nat
    decreases s.len(),
{
    if s.len() == 0 {
        0
    } else {
        digit_count(s.drop_last()) + if '0' <= s.last() && s.last() <= '9' {
            1nat
        } else {
            0nat
        }
    }
}

/// The most digits a duration text may hold. With at most this many digits
/// the total stays below 10^11 years of seconds, far from `u64::MAX`, so
/// `humantime::parse_duration` never reaches its one panicking path:
/// `Duration::new(u64::MAX, 1_000_000_000)` when nanoseconds add up to
/// exactly one second on top of the largest number of seconds.
pub const MAX_DURATION_DIGITS: usize = 11;

/// The number of ASCII digits in `s`.
pub fn count_digits(s: &str) -> (r: usize)
    ensures
        r == digit_count(s@),
{
    let n = s.unicode_len();
    let mut i: usize = 0;
    let mut count: usize = 0;
    while i < n
        invariant
            n == s@.len(),
            i <= n,
            count == digit_count(s@.subrange(0, i as int)),
            count <= i,
        decreases n - i,
    {
        let c = s.get_char(i);
        assert(s@.subrange(0, i + 1).drop_last() =~= s@.subrange(0, i as int));
        if '0' <= c && c <= '9' {
            count = count + 1;
        }
        i = i + 1;
    }
    assert(s@.subrange(0, n as int) =~= s@);
    count
}

/// Calls `humantime::parse_duration`. The contract claims that the call
/// succeeds exactly for the texts `humantime_duration` names a duration
/// for, and then returns that duration; and, as its source shows, that the
/// text `0` is the zero duration. Which error a rejected text gives is not
/// stated. The call panics on texts whose seconds reach `u64::MAX` with a
/// carry of one more second; the bound on the digits leaves those out.
#[verifier::external_body]
fn humantime_parse_duration(s: &str) -> (r: Result<(u64, u32), humantime::DurationError>)
    requires
        digit_count(s@) <= MAX_DURATION_DIGITS,
    ensures
        r is Ok <==> humantime_duration(s@) is Some,
        r is Ok ==> humantime_duration(s@) == Some(r->Ok_0),
        s@ == "0"@ ==> r is Ok && r->Ok_0 == (0u64, 0u32),
{
    match humantime::parse_duration(s) {
        Ok(d) => Ok((d.as_secs(), d.subsec_nanos())),
        Err(e) => Err(e),
    }
}

/// Parses a human-friendly duration into whole seconds and the nanoseconds
/// past them; see `humantime_duration`. The text may hold at most
/// `MAX_DURATION_DIGITS` digits.
pub fn parse_duration(s: &str) -> (r: Result<(u64, u32), humantime::DurationError>)
    requires
        digit_count(s@) <= MAX_DURATION_DIGITS,
    ensures
        r is Ok <==> humantime_duration(s@) is Some,
        r is Ok ==> humantime_duration(s@) == Some(r->Ok_0),
        s@ == "0"@ ==> r is Ok && r->Ok_0 == (0u64, 0u32),
{
    humantime_parse_duration(s)
}

} // verus!
