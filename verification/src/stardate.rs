//! The day-counter ("stardate"): whole days elapsed since the Unix epoch,
//! and its decimal numeral.

use vstd::prelude::*;
use vstd::arithmetic::div_mod::{lemma_div_is_ordered, lemma_div_plus_one};
use vstd::string::StringExecFns;

verus! {

pub const SECONDS_PER_DAY: u64 = 86400;

/// The day-index for an instant given as whole seconds since the Unix
/// epoch: the count of whole days elapsed.
pub open spec fn day_index_spec(secs: u64) -> u64 {
    secs / SECONDS_PER_DAY
}

pub fn day_index(secs: u64) -> (r: u64)
    ensures
        r == day_index_spec(secs),
{
    secs / SECONDS_PER_DAY
}

/// The day-index never decreases as wall-clock time advances.
pub proof fn lemma_day_index_monotonic(s1: u64, s2: u64)
    requires
        s1 <= s2,
    ensures
        day_index_spec(s1) <= day_index_spec(s2),
{
    lemma_div_is_ordered(s1 as int, s2 as int, SECONDS_PER_DAY as int);
}

/// The day-index climbs by exactly one each time 86400 seconds pass.
pub proof fn lemma_day_index_step(secs: u64)
    requires
        secs + SECONDS_PER_DAY <= u64::MAX,
    ensures
        day_index_spec((secs + SECONDS_PER_DAY) as u64) == day_index_spec(secs) + 1,
{
    lemma_div_plus_one(secs as int, SECONDS_PER_DAY as int);
}

/// The decimal digit character for `d` (`d < 10`).
pub open spec fn digit_char(d: nat) -> char {
    if d == 0 {
        '0'
    } else if d == 1 {
        '1'
    } else if d == 2 {
        '2'
    } else if d == 3 {
        '3'
    } else if d == 4 {
        '4'
    } else if d == 5 {
        '5'
    } else if d == 6 {
        '6'
    } else if d == 7 {
        '7'
    } else if d == 8 {
        '8'
    } else {
        '9'
    }
}

/// The decimal numeral for `n`, most significant digit first, without
/// leading zeros (the numeral for zero being "0").
pub open spec fn dec_rep(n: nat) -> Seq<char>
    decreases n,
{
    if n < 10 {
        seq![digit_char(n)]
    } else {
        dec_rep(n / 10).push(digit_char(n % 10))
    }
}

fn digit_str(d: u64) -> (r: &'static str)
    requires
        d < 10,
    ensures
        r@ == seq![digit_char(d as nat)],
{
    proof {
        reveal_strlit("0");
        reveal_strlit("1");
        reveal_strlit("2");
        reveal_strlit("3");
        reveal_strlit("4");
        reveal_strlit("5");
        reveal_strlit("6");
        reveal_strlit("7");
        reveal_strlit("8");
        reveal_strlit("9");
    }
    if d == 0 {
        proof {
            assert("0"@ =~= seq![digit_char(0)]);
        }
        "0"
    } else if d == 1 {
        proof {
            assert("1"@ =~= seq![digit_char(1)]);
        }
        "1"
    } else if d == 2 {
        proof {
            assert("2"@ =~= seq![digit_char(2)]);
        }
        "2"
    } else if d == 3 {
        proof {
            assert("3"@ =~= seq![digit_char(3)]);
        }
        "3"
    } else if d == 4 {
        proof {
            assert("4"@ =~= seq![digit_char(4)]);
        }
        "4"
    } else if d == 5 {
        proof {
            assert("5"@ =~= seq![digit_char(5)]);
        }
        "5"
    } else if d == 6 {
        proof {
            assert("6"@ =~= seq![digit_char(6)]);
        }
        "6"
    } else if d == 7 {
        proof {
            assert("7"@ =~= seq![digit_char(7)]);
        }
        "7"
    } else if d == 8 {
        proof {
            assert("8"@ =~= seq![digit_char(8)]);
        }
        "8"
    } else {
        proof {
            assert("9"@ =~= seq![digit_char(9)]);
        }
        "9"
    }
}

/// Writes `n` in decimal.
pub fn u64_to_dec(n: u64) -> (r: String)
    ensures
        r@ == dec_rep(n as nat),
    decreases n,
{
    if n < 10 {
        digit_str(n).to_owned()
    } else {
        let mut s = u64_to_dec(n / 10);
        s.append(digit_str(n % 10));
        proof {
            assert(s@ =~= dec_rep((n / 10) as nat).push(digit_char((n % 10) as nat)));
        }
        s
    }
}

/// Declares std::time::SystemTime, an opaque instant of the wall clock.
#[verifier::external_type_specification]
#[verifier::external_body]
pub struct ExSystemTime(std::time::SystemTime);

/// Declares std::time::SystemTimeError, the error of a backwards interval.
#[verifier::external_type_specification]
#[verifier::external_body]
pub struct ExSystemTimeError(std::time::SystemTimeError);

/// Relies on std::time::SystemTime::now: the wall clock at the moment of
/// the call.
pub assume_specification[ std::time::SystemTime::now ]() -> std::time::SystemTime;

/// Relies on std::time::SystemTime::duration_since: the time elapsed from
/// `earlier` to `self`, or an error when `self` stands before `earlier`.
pub assume_specification[ std::time::SystemTime::duration_since ](
    t: &std::time::SystemTime,
    earlier: std::time::SystemTime,
) -> Result<core::time::Duration, std::time::SystemTimeError>;

/// Relies on core::time::Duration::as_secs: the duration as whole seconds,
/// the fractional part dropped.
pub assume_specification[ core::time::Duration::as_secs ](d: &core::time::Duration) -> u64;

/// Relies on the constant std::time::UNIX_EPOCH: the instant the day-count
/// starts from.
#[verifier::external_body]
fn unix_epoch() -> std::time::SystemTime {
    std::time::UNIX_EPOCH
}

/// The wall clock, read at the moment of the call, as whole seconds since
/// the Unix epoch. A clock standing before the epoch reads as the epoch
/// itself.
pub fn now_unix_secs() -> u64 {
    let now = std::time::SystemTime::now();
    match now.duration_since(unix_epoch()) {
        Ok(d) => d.as_secs(),
        Err(_) => 0,
    }
}

} // verus!
