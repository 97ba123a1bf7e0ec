//! A growable sequence that keeps its elements in an inline buffer of `N` slots
//! while they fit, moves them to a heap buffer on the push that exceeds `N`, and
//! moves them back on the pop that brings the length down to `N` again.

use crate::storage_model::Model;
use vstd::prelude::*;

verus! {

/// The container. `Stack` holds `len` live elements at the front of `buf`; the
/// slots behind them hold values that stand for nothing. `Heap` holds exactly
/// its live elements.
pub enum LocalStorageVec<T, const N: usize> {
    Stack { buf: [T; N], len: usize },
    Heap(Vec<T>),
}

impl<T, const N: usize> View for LocalStorageVec<T, N> {
    type V = Seq<T>;

    /// The live elements, first pushed first.
    open spec fn view(&self) -> Seq<T> {
        match *self {
            LocalStorageVec::Stack { buf, len } => buf@.take(len as int),
            LocalStorageVec::Heap(v) => v@,
        }
    }
}

impl<T, const N: usize> LocalStorageVec<T, N> {
    /// Whether the elements are held inline.
    pub open spec fn is_stack(&self) -> bool {
        *self is Stack
    }

    /// Whether the elements are held in the heap buffer.
    pub open spec fn is_heap(&self) -> bool {
        *self is Heap
    }

    /// The container as a value of the state machine.
    pub open spec fn model(&self) -> Model<T> {
        Model { inline: self.is_stack(), items: self@ }
    }

    /// The invariant of the inline shape: no more live elements than slots.
    pub open spec fn wf(&self) -> bool {
        match *self {
            LocalStorageVec::Stack { buf, len } => len <= N,
            LocalStorageVec::Heap(v) => true,
        }
    }
}

impl<T: Copy + Default, const N: usize> LocalStorageVec<T, N> {
    /// Whether every inline slot behind the live elements holds a value that
    /// `T::default()` can return. The heap buffer has no such slots.
    pub open spec fn padded_with_defaults(&self) -> bool {
        match *self {
            LocalStorageVec::Stack { buf, len } => forall|j: int|
                len <= j < N ==> call_ensures(T::default, (), #[trigger] buf@[j]),
            LocalStorageVec::Heap(v) => true,
        }
    }

    /// An empty container, held inline.
    pub fn new() -> (r: LocalStorageVec<T, N>)
        ensures
            r.wf(),
            r.model() =~= Model::<T>::empty(),
            r.padded_with_defaults(),
    {
        LocalStorageVec::Stack { buf: [T::default(); N], len: 0 }
    }

    /// A container that holds the elements of `array` in their order: inline
    /// where they fit in `N` slots, with every slot behind them holding a
    /// default value of `T`, and in a heap buffer of exactly `K` elements
    /// where they do not.
    pub fn from_array<const K: usize>(array: [T; K]) -> (r: LocalStorageVec<T, N>)
        ensures
            r.wf(),
            r.model() =~= (Model { inline: K <= N, items: array@ }),
            r.padded_with_defaults(),
    {
        if K <= N {
            let mut buf = [T::default();N];
            let ghost fresh = buf;
            let mut i: usize = 0;
            while i < K
                invariant
                    i <= K <= N,
                    forall|j: int| 0 <= j < i ==> buf@[j] == array@[j],
                    forall|j: int| i <= j < N ==> buf@[j] == fresh@[j],
                decreases K - i,
            {
                buf[i] = array[i];
                i += 1;
            }
            assert(buf@.take(K as int) =~= array@);
            LocalStorageVec::Stack { buf, len: K }
        } else {
            LocalStorageVec::Heap(vstd::slice::slice_to_vec(array.as_slice()))
        }
    }

    /// The number of live elements.
    pub fn len(&self) -> (n: usize)
        requires
            self.wf(),
        ensures
            n == self@.len(),
    {
        match self {
            LocalStorageVec::Stack { len: l, .. } => *l,
            LocalStorageVec::Heap(v) => v.len(),
        }
    }

    /// Appends `t` behind the last element. The push that finds the inline
    /// buffer full moves every element to a heap buffer; no other push changes
    /// where the elements are held.
    pub fn push(&mut self, t: T)
        requires
            old(self).wf(),
        ensures
            final(self).wf(),
            final(self).model() =~= old(self).model().pushed(t, N as nat),
    {
        match self {
            LocalStorageVec::Stack { buf: b, len: l } => {
                if *l == N {
                    let mut v = vstd::slice::slice_to_vec(b.as_slice());
                    v.push(t);
                    *self = LocalStorageVec::Heap(v);
                } else {
                    b[*l] = t;
                    *l += 1;
                }
            },
            LocalStorageVec::Heap(v) => v.push(t),
        }
    }

    /// Removes the last element and returns it, or returns `None` and changes
    /// nothing where there is no element. The pop that leaves exactly `N`
    /// elements in the heap buffer moves them back inline; a pop from the
    /// inline buffer never changes where the elements are held.
    pub fn pop(&mut self) -> (r: Option<T>)
        requires
            old(self).wf(),
        ensures
            final(self).wf(),
            r == old(self).model().top(),
            final(self).model() =~= old(self).model().popped(N as nat),
    {
        match self {
            LocalStorageVec::Stack { buf: b, len: l } => {
                if *l == 0 {
                    None
                } else {
                    *l -= 1;
                    Some(b[*l])
                }
            },
            LocalStorageVec::Heap(v) => {
                let last = v.pop();
                if v.len() == N {
                    let buf = inline_copy::<T, N>(v);
                    *self = LocalStorageVec::Stack { buf, len: N };
                }
                last
            },
        }
    }
}

/// An inline buffer that holds the `N` elements of `v` in their order.
fn inline_copy<T: Copy + Default, const N: usize>(v: &Vec<T>) -> (buf: [T; N])
    requires
        v@.len() == N,
    ensures
        buf@ == v@,
{
    let mut buf = [T::default();N];
    let mut i: usize = 0;
    while i < N
        invariant
            i <= N,
            v@.len() == N,
            forall|j: int| 0 <= j < i ==> buf@[j] == v@[j],
        decreases N - i,
    {
        buf[i] = v[i];
        i += 1;
    }
    assert(buf@ =~= v@);
    buf
}

impl<T: Copy + Default, const N: usize, const K: usize> From<[T; K]> for LocalStorageVec<T, N> {
    /// The same container as `from_array` gives.
    fn from(array: [T; K]) -> (r: Self)
        ensures
            r.wf(),
            r.model() =~= (Model { inline: K <= N, items: array@ }),
            r.padded_with_defaults(),
    {
        LocalStorageVec::from_array(array)
    }
}

impl<T: Copy + Default, const N: usize, const K: usize> vstd::std_specs::convert::FromSpecImpl<[T; K]> for LocalStorageVec<T, N> {
    /// The padding slots hold values that only `T` can name, so the result is
    /// stated by the clauses of `from` and not as one value.
    open spec fn obeys_from_spec() -> bool {
        false
    }

    open spec fn from_spec(array: [T; K]) -> Self {
        arbitrary()
    }
}

impl<T, const N: usize> std::ops::Index<usize> for LocalStorageVec<T, N> {
    type Output = T;

    /// The element at position `index`, counted from the first pushed.
    fn index(&self, index: usize) -> (r: &T)
        ensures
            *r == self@[index as int],
    {
        match self {
            LocalStorageVec::Heap(v) => &v[index],
            LocalStorageVec::Stack { buf: b, len: l } => {
                let live = vstd::slice::slice_subrange(b.as_slice(), 0, *l);
                &live[index]
            },
        }
    }
}

impl<T, const N: usize> vstd::std_specs::core::IndexSpecImpl<usize> for LocalStorageVec<T, N> {
    open spec fn index_req(&self, index: &usize) -> bool {
        self.wf() && *index < self@.len()
    }
}

impl<T, const N: usize> std::ops::Index<std::ops::Range<usize>> for LocalStorageVec<T, N> {
    type Output = [T];

    /// The elements at the positions from `index.start` up to, not including,
    /// `index.end`.
    fn index(&self, index: std::ops::Range<usize>) -> (r: &[T])
        ensures
            r@ == self@.subrange(index.start as int, index.end as int),
    {
        match self {
            LocalStorageVec::Heap(v) => vstd::slice::slice_subrange(
                v.as_slice(),
                index.start,
                index.end,
            ),
            LocalStorageVec::Stack { buf: b, len: l } => {
                let live = vstd::slice::slice_subrange(b.as_slice(), 0, *l);
                proof {
                    assert(live@.subrange(index.start as int, index.end as int) =~= self@.subrange(
                        index.start as int,
                        index.end as int,
                    ));
                }
                vstd::slice::slice_subrange(live, index.start, index.end)
            },
        }
    }
}

impl<T, const N: usize> vstd::std_specs::core::IndexSpecImpl<std::ops::Range<usize>> for LocalStorageVec<T, N> {
    open spec fn index_req(&self, index: &std::ops::Range<usize>) -> bool {
        self.wf() && index.start <= index.end <= self@.len()
    }
}

} // verus!
