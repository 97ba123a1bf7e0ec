//! Checking a name that a user typed.

use crate::input::{trim, trimmed};
use vstd::prelude::*;

verus! {

#[verifier::external_type_specification]
#[verifier::external_body]
pub struct ExIoError(std::io::Error);

/// Why no name was read.
pub enum MyError {
    /// The line holds no name: nothing, or a character that is no letter.
    InvalidName,
    /// The line could not be read or the prompt not be written.
    IOError(std::io::Error),
}

/// Whether `c` is a letter, as `char::is_alphabetic` of the standard library
/// tells.
pub uninterp spec fn alphabetic(c: char) -> bool;

/// `char::is_alphabetic` of the standard library. Which characters are
/// letters is the Unicode property `Alphabetic`, which is not written out
/// here: the result is known by its name only.
#[verifier::external_body]
fn is_alphabetic(c: char) -> (r: bool)
    ensures
        r == alphabetic(c),
{
    c.is_alphabetic()
}

/// A name is at least one character, and letters only.
pub open spec fn valid_name(s: Seq<char>) -> bool {
    s.len() > 0 && forall|i: int| 0 <= i < s.len() ==> alphabetic(#[trigger] s[i])
}

/// The name that the line `line` holds between the white space at its ends,
/// or `InvalidName` where that is no name.
pub fn checked_username(line: &str) -> (r: Result<String, MyError>)
    ensures
        valid_name(trimmed(line@)) ==> r is Ok && r->Ok_0@ == trimmed(line@),
        !valid_name(trimmed(line@)) ==> r is Err && r->Err_0 is InvalidName,
{
    let name = trim(line);
    let n = name.unicode_len();
    let mut i: usize = 0;
    while i < n
        invariant
            i <= n,
            n == name@.len(),
            name@ == trimmed(line@),
            forall|j: int| 0 <= j < i ==> alphabetic(#[trigger] name@[j]),
        decreases n - i,
    {
        let c = name.get_char(i);
        if !is_alphabetic(c) {
            return Err(MyError::InvalidName);
        }
        i += 1;
    }
    if n == 0 {
        return Err(MyError::InvalidName);
    }
    Ok(name.to_owned())
}

} // verus!
