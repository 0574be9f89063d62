//! What a new set gets from outside: a random identifier and the current time.

use crate::model::Timestamp;
use vstd::prelude::*;

verus! {

/// Whether `c` is a decimal digit or one of the letters `a` to `f`.
pub open spec fn is_lower_hex(c: char) -> bool {
    ('0' <= c && c <= '9') || ('a' <= c && c <= 'f')
}

/// Whether `s` is the textual form of a version 4 UUID: 36 characters, lower
/// case hexadecimal digits in groups of 8, 4, 4, 4 and 12 with a hyphen
/// between the groups, the version digit `4` and a variant digit of `8`, `9`,
/// `a` or `b`.
pub open spec fn is_set_id_text(s: Seq<char>) -> bool {
    &&& s.len() == 36
    &&& forall|i: int|
        0 <= i < 36 ==> if i == 8 || i == 13 || i == 18 || i == 23 {
            #[trigger] s[i] == '-'
        } else {
            is_lower_hex(s[i])
        }
    &&& s[14] == '4'
    &&& (s[19] == '8' || s[19] == '9' || s[19] == 'a' || s[19] == 'b')
}

/// An identifier is never empty and holds no path separator, so it names
/// exactly one entry of the directory it is joined to.
pub proof fn lemma_set_id_is_one_path_part(s: Seq<char>)
    requires
        is_set_id_text(s),
    ensures
        s.len() > 0,
        forall|i: int| 0 <= i < s.len() ==> s[i] != '/',
{
    assert forall|i: int| 0 <= i < s.len() implies s[i] != '/' by {
        if i == 8 || i == 13 || i == 18 || i == 23 {
            assert(s[i] == '-');
        } else {
            assert(is_lower_hex(s[i]));
        }
    }
}

/// Draws a fresh identifier: `uuid::Uuid::new_v4` rendered by `to_string`.
///
/// Trusted: the result is random, so the contract states only its shape. The
/// generator sets the version and variant bits, and the rendering is the
/// hyphenated lower case form. The call panics where the operating system
/// cannot supply random bytes.
#[verifier::external_body]
pub(crate) fn random_set_id() -> (id: String)
    ensures
        is_set_id_text(id@),
{
    uuid::Uuid::new_v4().to_string()
}

/// Reads the clock: `chrono::Utc::now`, taken apart by `timestamp` and
/// `timestamp_subsec_nanos`.
///
/// Trusted: the result depends on the time of the call, so the contract states
/// only that its nanoseconds are those of an ordinary second, never the
/// second billion by which a leap second is written. The call panics where
/// the system clock stands before the epoch.
#[verifier::external_body]
pub(crate) fn current_time() -> (now: Timestamp)
    ensures
        now.nanos < 1_000_000_000,
{
    let now = chrono::Utc::now();
    Timestamp { seconds: now.timestamp(), nanos: now.timestamp_subsec_nanos() }
}

} // verus!
