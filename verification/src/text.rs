//! Building text in a `String`.

use vstd::prelude::*;

verus! {

/// `String::push_str` of the standard library: the string holds afterwards
/// what it held before, followed by the characters of `string`.
pub assume_specification[ String::push_str ](s: &mut String, string: &str)
    ensures
        final(s)@ == old(s)@ + string@,
;

/// The greeting that `append_to_string` writes.
pub open spec fn greeting() -> Seq<char> {
    "Hello"@ + " "@ + "World"@
}

/// Appends the greeting to `s` and leaves what `s` held in front of it.
pub fn append_to_string(s: &mut String)
    ensures
        final(s)@ == old(s)@ + greeting(),
{
    s.push_str("Hello");
    s.push_str(" ");
    s.push_str("World");
}

} // verus!
