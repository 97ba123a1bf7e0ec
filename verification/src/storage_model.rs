//! The container of `local_storage_vec` as a state machine over mathematical
//! values: where the elements are held, and which elements they are.

use vstd::prelude::*;

verus! {

/// What a container is, apart from how its buffers are laid out.
#[verifier::ext_equal]
pub ghost struct Model<T> {
    /// Whether the elements are held inline.
    pub inline: bool,
    /// The live elements, first pushed first.
    pub items: Seq<T>,
}

impl<T> Model<T> {
    /// The container that holds nothing: inline, whatever the capacity.
    pub open spec fn empty() -> Model<T> {
        Model { inline: true, items: Seq::empty() }
    }

    /// A container is consistent with the inline capacity `cap` where it holds
    /// no more than `cap` elements while inline.
    pub open spec fn wf(self, cap: nat) -> bool {
        self.inline ==> self.items.len() <= cap
    }

    /// The state after one push. The elements stay inline only where they
    /// were inline and one more still fits.
    pub open spec fn pushed(self, t: T, cap: nat) -> Model<T> {
        Model { inline: self.inline && self.items.len() < cap, items: self.items.push(t) }
    }

    /// What one pop returns.
    pub open spec fn top(self) -> Option<T> {
        if self.items.len() == 0 {
            None
        } else {
            Some(self.items.last())
        }
    }

    /// The state after one pop. Elements held on the heap come back inline
    /// exactly where the pop leaves `cap` of them.
    pub open spec fn popped(self, cap: nat) -> Model<T> {
        let rest = if self.items.len() == 0 {
            self.items
        } else {
            self.items.drop_last()
        };
        Model { inline: self.inline || rest.len() == cap, items: rest }
    }

    /// The state after pushing the elements of `s`, first to last.
    pub open spec fn pushed_all(self, s: Seq<T>, cap: nat) -> Model<T>
        decreases s.len(),
    {
        if s.len() == 0 {
            self
        } else {
            self.pushed_all(s.drop_last(), cap).pushed(s.last(), cap)
        }
    }

    /// The state after `k` pops.
    pub open spec fn popped_n(self, k: nat, cap: nat) -> Model<T>
        decreases k,
    {
        if k == 0 {
            self
        } else {
            self.popped(cap).popped_n((k - 1) as nat, cap)
        }
    }

    /// What `k` pops return, in the order of the calls.
    pub open spec fn pop_results(self, k: nat, cap: nat) -> Seq<Option<T>>
        decreases k,
    {
        if k == 0 {
            Seq::empty()
        } else {
            seq![self.top()] + self.popped(cap).pop_results((k - 1) as nat, cap)
        }
    }
}

} // verus!
