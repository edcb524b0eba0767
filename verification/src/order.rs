//! Lists kept in order.

use vstd::prelude::*;

use crate::text::views;

verus! {

/// A value with a strict order on its content.
pub trait Ranked: View + Sized {
    spec fn before(left: Self::V, right: Self::V) -> bool;

    proof fn irreflexive(value: Self::V)
        ensures
            !Self::before(value, value),
    ;

    proof fn transitive(first: Self::V, second: Self::V, third: Self::V)
        requires
            Self::before(first, second),
            Self::before(second, third),
        ensures
            Self::before(first, third),
    ;

    fn ranks_before(&self, other: &Self) -> (before: bool)
        ensures
            before == Self::before(self@, other@),
    ;
}

/// Whether no value stands after one that it ranks before.
pub open spec fn ordered<T: Ranked>(values: Seq<T::V>) -> bool {
    forall|i: int, j: int|
        0 <= i < j < values.len() ==> !T::before(#[trigger] values[j], #[trigger] values[i])
}

/// Puts a value at the end of those it does not rank before.
pub fn insert_in_order<T: Ranked>(values: &mut Vec<T>, value: T)
    requires
        ordered::<T>(views(old(values)@)),
    ensures
        ordered::<T>(views(final(values)@)),
        exists|at: int|
            0 <= at <= old(values)@.len() && views(final(values)@) == #[trigger] views(
                old(values)@,
            ).insert(at, value@),
{
    let ghost before = views(values@);
    let mut at: usize = 0;
    while at < values.len() && !value.ranks_before(&values[at])
        invariant
            at <= values@.len(),
            before == views(values@),
            forall|i: int| 0 <= i < at ==> !T::before(value@, #[trigger] before[i]),
        decreases values@.len() - at,
    {
        at = at + 1;
    }
    proof {
        let after = before.insert(at as int, value@);
        assert(views(values@.insert(at as int, value)) =~= after);
        assert forall|i: int, j: int| 0 <= i < j < after.len() implies !T::before(
            #[trigger] after[j],
            #[trigger] after[i],
        ) by {
            if i == at && j > at {
                assert(after[j] == before[j - 1]);
                if T::before(after[j], value@) {
                    T::transitive(after[j], value@, before[at as int]);
                    T::irreflexive(before[at as int]);
                }
            } else if j == at {
                assert(after[i] == before[i]);
            } else {
                let former_i = if i < at {
                    i
                } else {
                    i - 1
                };
                let former_j = if j < at {
                    j
                } else {
                    j - 1
                };
                assert(after[i] == before[former_i]);
                assert(after[j] == before[former_j]);
            }
        }
    }
    values.insert(at, value);
}

/// What a list holds after an insertion.
pub proof fn lemma_insert_contains<V>(values: Seq<V>, at: int, value: V, wanted: V)
    requires
        0 <= at <= values.len(),
    ensures
        values.insert(at, value).contains(wanted) == (values.contains(wanted) || wanted == value),
{
    let more = values.insert(at, value);
    if values.contains(wanted) {
        let i = choose|i: int| 0 <= i < values.len() && values[i] == wanted;
        if i < at {
            assert(more[i] == wanted);
        } else {
            assert(more[i + 1] == wanted);
        }
    }
    if wanted == value {
        assert(more[at] == wanted);
    }
    if more.contains(wanted) && wanted != value {
        let i = choose|i: int| 0 <= i < more.len() && more[i] == wanted;
        if i < at {
            assert(values[i] == wanted);
        } else {
            assert(values[i - 1] == wanted);
        }
    }
}

} // verus!
