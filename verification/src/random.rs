//! Clock-seeded choices: an index below a bound and short random names.

use vstd::prelude::*;
use std::time::{Duration, SystemTime, SystemTimeError};
use crate::text::push_char;

verus! {

/// `std::time::SystemTime`, a reading of the system clock, carried through
/// unopened.
#[verifier::external_type_specification]
#[verifier::external_body]
pub struct ExSystemTime(SystemTime);

/// `std::time::SystemTimeError`, the failure of a clock subtraction, carried
/// through unopened.
#[verifier::external_type_specification]
#[verifier::external_body]
pub struct ExSystemTimeError(SystemTimeError);

/// `SystemTime::now` reads the system clock; nothing is known of its value.
pub assume_specification[ SystemTime::now ]() -> SystemTime;

/// The constant `std::time::UNIX_EPOCH`, the clock reading of 1970-01-01
/// 00:00:00 UTC; nothing about it is used here beyond its existence.
#[verifier::external_body]
fn unix_epoch() -> SystemTime {
    std::time::UNIX_EPOCH
}

/// `SystemTime::duration_since` measures from `earlier` to `t`; it fails when
/// `earlier` is later than `t`. Which of the two comes back depends on the
/// clock, so nothing is stated.
pub assume_specification[ SystemTime::duration_since ](t: &SystemTime, earlier: SystemTime) -> Result<Duration, SystemTimeError>;

/// `Duration::subsec_nanos` is the fractional part of the duration in
/// nanoseconds, which its documentation bounds below one billion.
pub assume_specification[ Duration::subsec_nanos ](d: &Duration) -> (n: u32)
    ensures
        n < 1_000_000_000,
;

/// The characters random names are drawn from.
pub open spec fn charset() -> Seq<char> {
    "abcdefghijklmnopqrstuvwxyz0123456789"@
}

/// The index picked for a clock reading of `nanos` nanoseconds past the second.
pub fn index_from_nanos(nanos: u32, max: usize) -> (r: usize)
    requires
        max > 0,
    ensures
        r == nanos as usize % max,
        r < max,
{
    nanos as usize % max
}

/// The index picked below `max` for a clock reading of `nanos` nanoseconds
/// past the second.
pub open spec fn clock_index(nanos: u32, max: usize) -> int {
    nanos as int % max as int
}

/// An index below `max`, picked from the sub-second part of the clock: the
/// remainder by `max` of some nanosecond count below one billion (0 when the
/// clock reads earlier than the Unix epoch). Which count depends on the clock.
pub fn rand_index(max: usize) -> (r: usize)
    requires
        max > 0,
    ensures
        r < max,
        exists|nanos: u32| nanos < 1_000_000_000 && r == #[trigger] clock_index(nanos, max),
{
    let now = SystemTime::now();
    match now.duration_since(unix_epoch()) {
        Ok(d) => {
            let nanos = d.subsec_nanos();
            let r = index_from_nanos(nanos, max);
            assert(r == clock_index(nanos, max));
            r
        },
        Err(_) => {
            assert(0 == clock_index(0, max));
            0
        },
    }
}

/// `d` is an index that `rand_index(36)` can give: the remainder by 36 of a
/// nanosecond count below one billion.
pub open spec fn clock_draw(d: usize) -> bool {
    exists|nanos: u32| nanos < 1_000_000_000 && d == #[trigger] clock_index(nanos, 36)
}

/// `name` spells the draws `draws`: its `i`-th character is the charset entry
/// at `draws[i]`.
pub open spec fn spells_draws(name: Seq<char>, draws: Seq<usize>) -> bool {
    &&& name.len() == draws.len()
    &&& forall|i: int| 0 <= i < draws.len() ==> draws[i] < 36 && name[i] == charset()[draws[i] as int]
}

/// The name whose `i`-th character is the charset entry at `draws[i]`.
pub fn name_from_draws(draws: &Vec<usize>) -> (r: String)
    requires
        forall|i: int| 0 <= i < draws.len() ==> draws[i] < 36,
    ensures
        spells_draws(r@, draws@),
{
    let set = "abcdefghijklmnopqrstuvwxyz0123456789";
    proof {
        reveal_strlit("abcdefghijklmnopqrstuvwxyz0123456789");
    }
    let mut r = String::new();
    let mut k: usize = 0;
    while k < draws.len()
        invariant
            k <= draws.len(),
            forall|i: int| 0 <= i < draws.len() ==> draws[i] < 36,
            set@ == charset(),
            set@.len() == 36,
            r@.len() == k,
            forall|i: int| 0 <= i < k ==> r@[i] == charset()[draws@[i] as int],
        decreases draws.len() - k,
    {
        let c = set.get_char(draws[k]);
        push_char(&mut r, c);
        k = k + 1;
    }
    r
}

/// A string of `len` characters, each a lower-case ASCII letter or a digit:
/// the `i`-th is the charset entry at the `i`-th index drawn from the clock
/// with `rand_index(36)`.
pub fn rand_string(len: usize) -> (r: String)
    ensures
        r@.len() == len,
        forall|i: int| 0 <= i < len ==> charset().contains(#[trigger] r@[i]),
        exists|draws: Seq<usize>|
            #![trigger spells_draws(r@, draws)]
            spells_draws(r@, draws) && forall|i: int| 0 <= i < draws.len() ==> clock_draw(#[trigger] draws[i]),
{
    let mut draws: Vec<usize> = Vec::new();
    let mut k: usize = 0;
    while k < len
        invariant
            k <= len,
            draws.len() == k,
            forall|i: int| 0 <= i < k ==> draws[i] < 36 && clock_draw(#[trigger] draws[i]),
        decreases len - k,
    {
        let d = rand_index(36);
        draws.push(d);
        k = k + 1;
    }
    let r = name_from_draws(&draws);
    proof {
        reveal_strlit("abcdefghijklmnopqrstuvwxyz0123456789");
        assert(charset().len() == 36);
        assert forall|i: int| 0 <= i < len implies charset().contains(#[trigger] r@[i]) by {
            let j = draws@[i] as int;
            assert(0 <= j < charset().len());
            assert(r@[i] == charset()[j]);
        }
        assert(spells_draws(r@, draws@));
    }
    r
}

} // verus!
