//! What holds of every run of the container's state machine.

use crate::local_storage_vec::LocalStorageVec;
use crate::storage_model::Model;
use vstd::prelude::*;

verus! {

/// The `i`-th of `k` pops returns the element `i` places before the last one
/// while there is one, and `None` after that; the pops leave the elements
/// that they did not return.
pub proof fn lemma_pops<T>(m: Model<T>, k: nat, cap: nat)
    ensures
        m.pop_results(k, cap).len() == k,
        forall|i: int|
            0 <= i < k ==> #[trigger] m.pop_results(k, cap)[i] == if i < m.items.len() {
                Some(m.items[m.items.len() - 1 - i])
            } else {
                None
            },
        m.popped_n(k, cap).items =~= m.items.take(
            if k <= m.items.len() {
                m.items.len() - k
            } else {
                0
            },
        ),
    decreases k,
{
    if k > 0 {
        let rest = m.popped(cap);
        lemma_pops(rest, (k - 1) as nat, cap);
        assert forall|i: int| 0 <= i < k implies #[trigger] m.pop_results(k, cap)[i] == if i
            < m.items.len() {
            Some(m.items[m.items.len() - 1 - i])
        } else {
            None
        } by {
            if i > 0 {
                assert(m.pop_results(k, cap)[i] == rest.pop_results((k - 1) as nat, cap)[i - 1]);
            }
        }
    }
}

/// Pushing the elements of `s` onto the empty container leaves exactly `s`,
/// held inline where `s` has no more than `cap` elements and on the heap
/// where it has more: the push that finds `cap` elements is the one that
/// leaves the inline buffer.
pub proof fn lemma_pushes_from_empty<T>(s: Seq<T>, cap: nat)
    ensures
        Model::<T>::empty().pushed_all(s, cap) =~= (Model { inline: s.len() <= cap, items: s }),
    decreases s.len(),
{
    if s.len() > 0 {
        lemma_pushes_from_empty(s.drop_last(), cap);
        assert(s.drop_last().push(s.last()) =~= s);
    }
}

/// The pop that finds `cap + 1` elements on the heap leaves `cap` elements
/// inline, and no number of pops from the inline buffer leaves it.
pub proof fn lemma_demotion<T>(m: Model<T>, k: nat, cap: nat)
    requires
        m.wf(cap),
    ensures
        !m.inline && m.items.len() == cap + 1 ==> m.popped(cap).inline && m.popped(
            cap,
        ).items.len() == cap,
        m.inline ==> m.popped_n(k, cap).inline,
        m.popped_n(k, cap).wf(cap),
    decreases k,
{
    if k > 0 {
        lemma_demotion(m.popped(cap), (k - 1) as nat, cap);
    }
}

/// Pops return what was pushed, last pushed first, whether or not the
/// elements left the inline buffer on the way.
pub proof fn lemma_lifo<T>(s: Seq<T>, cap: nat)
    ensures
        Model::<T>::empty().pushed_all(s, cap).pop_results(s.len(), cap) =~= Seq::new(
            s.len(),
            |i: int| Some(s[s.len() - 1 - i]),
        ),
{
    lemma_pushes_from_empty(s, cap);
    lemma_pops(Model::<T>::empty().pushed_all(s, cap), s.len(), cap);
}

/// As many pops as there are elements return them all, last first, and
/// leave nothing; the pop after those returns `None`.
pub proof fn lemma_pop_to_empty<T>(m: Model<T>, cap: nat)
    ensures
        m.pop_results(m.items.len() + 1, cap) =~= Seq::new(
            m.items.len(),
            |i: int| Some(m.items[m.items.len() - 1 - i]),
        ).push(None),
        m.popped_n(m.items.len(), cap).items =~= Seq::<T>::empty(),
        m.popped_n(m.items.len(), cap).top() is None,
{
    lemma_pops(m, m.items.len() + 1, cap);
    lemma_pops(m, m.items.len(), cap);
}

/// Among any number of pops, those that return an element are the first
/// `len`: the length is the number of elements that popping to the end yields.
pub proof fn lemma_len_counts_pops<T>(m: Model<T>, k: nat, cap: nat)
    ensures
        forall|i: int|
            0 <= i < k ==> (#[trigger] m.pop_results(k, cap)[i] is Some <==> i < m.items.len()),
{
    lemma_pops(m, k, cap);
}

/// Two containers with the same elements admit the same positions and ranges
/// and read the same from each, one held inline and one on the heap included.
pub proof fn lemma_reads_ignore_storage<T, const A: usize, const B: usize>(
    a: LocalStorageVec<T, A>,
    b: LocalStorageVec<T, B>,
)
    requires
        a.wf(),
        b.wf(),
        a@ == b@,
    ensures
        forall|i: usize|
            vstd::std_specs::core::IndexSpec::index_req(&a, &i)
                <==> vstd::std_specs::core::IndexSpec::index_req(&b, &i),
        forall|i: int| 0 <= i < a@.len() ==> a@[i] == b@[i],
        forall|r: std::ops::Range<usize>|
            vstd::std_specs::core::IndexSpec::index_req(&a, &r)
                <==> vstd::std_specs::core::IndexSpec::index_req(&b, &r),
        forall|lo: int, hi: int|
            0 <= lo <= hi <= a@.len() ==> a@.subrange(lo, hi) == b@.subrange(lo, hi),
{
}

} // verus!
