//! The failure messages the engine reports, and the small string helpers the
//! verified code builds them with.

use vstd::prelude::*;
use vstd::string::*;

verus! {

/// Message for a file whose on-disk size is zero.
pub open spec fn empty_file_msg() -> Seq<char> {
    "empty file"@
}

/// Message for a requested output format other than JPEG or PNG.
pub open spec fn unsupported_format_msg() -> Seq<char> {
    "unsupported image format"@
}

/// Message for a job pre-empted by the failure-threshold circuit breaker.
pub open spec fn threshold_abort_msg() -> Seq<char> {
    "Too many errors, stopping early"@
}

/// Message for a file that failed both decode attempts: it carries the error
/// of the detect-then-decode attempt and the error of the uniform recovery
/// attempt, so callers can diagnose ambiguous or corrupt files.
pub open spec fn decode_failure_msg(orig: Seq<char>, rec: Seq<char>) -> Seq<char> {
    "original error: "@ + orig + ", recovery error: "@ + rec
}

pub fn empty_file_error() -> (r: String)
    ensures
        r@ == empty_file_msg(),
{
    String::from_str("empty file")
}

pub fn unsupported_format_error() -> (r: String)
    ensures
        r@ == unsupported_format_msg(),
{
    String::from_str("unsupported image format")
}

pub fn threshold_abort_error() -> (r: String)
    ensures
        r@ == threshold_abort_msg(),
{
    String::from_str("Too many errors, stopping early")
}

pub fn combine_decode_errors(orig: &str, rec: &str) -> (r: String)
    ensures
        r@ == decode_failure_msg(orig@, rec@),
{
    let mut s = String::from_str("original error: ");
    s.append(orig);
    s.append(", recovery error: ");
    s.append(rec);
    proof {
        assert(s@ =~= decode_failure_msg(orig@, rec@));
    }
    s
}

/// Character-by-character string equality, so that verified code can compare
/// a format name against a literal.
pub fn str_eq(a: &str, b: &str) -> (r: bool)
    ensures
        r == (a@ == b@),
{
    let na = a.unicode_len();
    let nb = b.unicode_len();
    if na != nb {
        return false;
    }
    let mut i: usize = 0;
    while i < na
        invariant
            na == a@.len(),
            nb == b@.len(),
            na == nb,
            0 <= i <= na,
            forall|j: int| 0 <= j < i ==> a@[j] == b@[j],
        decreases na - i,
    {
        if a.get_char(i) != b.get_char(i) {
            return false;
        }
        i = i + 1;
    }
    proof {
        assert(a@ =~= b@);
    }
    true
}

} // verus!
