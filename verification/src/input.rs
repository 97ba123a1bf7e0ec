//! Reading what a user typed: trimming a line and parsing numbers and flags.

use vstd::prelude::*;

verus! {

/// The characters of `s` without the white space at its two ends, as
/// `str::trim` of the standard library returns them.
pub uninterp spec fn trimmed(s: Seq<char>) -> Seq<char>;

/// `str::trim` of the standard library. The white space that it removes is
/// the Unicode property of that name, which is not written out here: the
/// result is known by its name only.
#[verifier::external_body]
pub(crate) fn trim(s: &str) -> (r: &str)
    ensures
        r@ == trimmed(s@),
{
    s.trim()
}

/// Whether every character of `s` is one of the digits `0` to `9`.
pub open spec fn all_digits(s: Seq<char>) -> bool {
    forall|i: int| 0 <= i < s.len() ==> '0' <= #[trigger] s[i] <= '9'
}

/// The number that the digits of `s` write in base ten.
pub open spec fn decimal(s: Seq<char>) -> nat
    decreases s.len(),
{
    if s.len() == 0 {
        0
    } else {
        decimal(s.drop_last()) * 10 + (s.last() as nat - '0' as nat) as nat
    }
}

/// What a text denotes as an unsigned 32-bit number in base ten: digits
/// only, behind at most one `+`, at least one of them, and a value that fits.
pub open spec fn unsigned_decimal(s: Seq<char>) -> Option<u32> {
    let digits = if s.len() > 0 && s[0] == '+' {
        s.skip(1)
    } else {
        s
    };
    if digits.len() > 0 && all_digits(digits) && decimal(digits) <= u32::MAX {
        Some(decimal(digits) as u32)
    } else {
        None
    }
}

/// `u32::from_str_radix` of the standard library, for radix 10 only: the
/// number that `s` writes, or `None` where it reports an error. It accepts an
/// optional `+` followed by digits only, and fails on an empty text, on any
/// other character and on a value that does not fit.
#[verifier::external_body]
pub(crate) fn from_str_radix(s: &str, radix: u32) -> (r: Option<u32>)
    requires
        radix == 10,
    ensures
        r == unsigned_decimal(s@),
{
    u32::from_str_radix(s, radix).ok()
}

/// What a text denotes as a flag: `true` and `false` are the only texts that
/// denote one.
pub open spec fn flag(s: Seq<char>) -> Option<bool> {
    if s == "true"@ {
        Some(true)
    } else if s == "false"@ {
        Some(false)
    } else {
        None
    }
}

/// `bool::from_str` of the standard library: the flag that `s` writes, or
/// `None` where it reports an error, which it does on every text but `true`
/// and `false`.
#[verifier::external_body]
pub(crate) fn parse_flag(s: &str) -> (r: Option<bool>)
    ensures
        r == flag(s@),
{
    <bool as std::str::FromStr>::from_str(s).ok()
}

} // verus!
