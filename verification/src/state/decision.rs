//! What a decision on durable state yields: a value, and the writes that go with it.

use vstd::prelude::*;

use crate::contract::control::{OperatorError, OperatorErrorView};
use crate::state::tables::{Change, ChangeView};
use crate::text::views;

verus! {

/// The value a decision yields, with the writes to perform.
pub struct Decided<T> {
    pub value: T,
    pub changes: Vec<Change>,
}

/// The content of a result whose error is the operator's.
pub open spec fn answer<T: View>(result: Result<T, OperatorError>) -> Result<
    T::V,
    OperatorErrorView,
> {
    match result {
        Ok(value) => Ok(value@),
        Err(error) => Err(error@),
    }
}

/// The content of a decision: its value with its writes, or its refusal.
pub open spec fn decision<T: View>(result: Result<Decided<T>, OperatorError>) -> Result<
    (T::V, Seq<ChangeView>),
    OperatorErrorView,
> {
    match result {
        Ok(decided) => Ok((decided.value@, views(decided.changes@))),
        Err(error) => Err(error@),
    }
}

/// A decision that changes nothing.
pub(crate) fn unchanged<T: View>(value: T) -> (result: Result<Decided<T>, OperatorError>)
    ensures
        decision(result) == Ok::<(T::V, Seq<ChangeView>), OperatorErrorView>(
            (value@, Seq::<ChangeView>::empty()),
        ),
{
    let decided = Decided { value, changes: Vec::new() };
    proof {
        assert(views(decided.changes@) =~= Seq::<ChangeView>::empty());
    }
    Ok(decided)
}

/// A decision with its writes.
pub(crate) fn changed<T: View>(value: T, changes: Vec<Change>) -> (result: Result<
    Decided<T>,
    OperatorError,
>)
    ensures
        decision(result) == Ok::<(T::V, Seq<ChangeView>), OperatorErrorView>(
            (value@, views(changes@)),
        ),
{
    Ok(Decided { value, changes })
}

} // verus!
