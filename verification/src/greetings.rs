//! People who greet and say something about themselves.

use vstd::prelude::*;

verus! {

pub struct Student {}

pub struct Teacher {}

/// What a person says.
pub trait Hello {
    /// The words of the greeting.
    spec fn greeting(&self) -> Seq<char>;

    /// The words of the remark.
    spec fn remark(&self) -> Seq<char>;

    fn say_hi(&self) -> (r: String)
        ensures
            r@ == self.greeting(),
    ;

    fn say_something(&self) -> (r: String)
        ensures
            r@ == self.remark(),
    ;
}

impl Hello for Student {
    open spec fn greeting(&self) -> Seq<char> {
        "hi"@
    }

    open spec fn remark(&self) -> Seq<char> {
        "I'm a good student"@
    }

    fn say_hi(&self) -> (r: String) {
        "hi".to_owned()
    }

    fn say_something(&self) -> (r: String) {
        "I'm a good student".to_owned()
    }
}

impl Hello for Teacher {
    open spec fn greeting(&self) -> Seq<char> {
        "Hi, I'm your new teacher"@
    }

    open spec fn remark(&self) -> Seq<char> {
        "I'm not a bad teacher"@
    }

    fn say_hi(&self) -> (r: String) {
        "Hi, I'm your new teacher".to_owned()
    }

    fn say_something(&self) -> (r: String) {
        "I'm not a bad teacher".to_owned()
    }
}

} // verus!
