//! What stopping a direct child proves of its exit.

use vstd::prelude::*;
use vstd::string::*;

use crate::text::{joined, joined3, told};

verus! {

/// States whether direct-child exit was observed during cleanup.
#[derive(Clone, Copy, Debug, PartialEq, Eq, Structural)]
pub enum ChildExitEvidence {
    Proven,
    Unproven,
}

/// Why a direct child could not be registered, and whether it is known to have exited since.
#[derive(Debug, PartialEq, Eq)]
pub struct ChildRegistrationError {
    pub message: String,
    pub exit_evidence: ChildExitEvidence,
}

/// The mathematical content of [`ChildRegistrationError`].
#[verifier::ext_equal]
pub struct ChildRegistrationErrorView {
    pub message: Seq<char>,
    pub exit_evidence: ChildExitEvidence,
}

impl View for ChildRegistrationError {
    type V = ChildRegistrationErrorView;

    open spec fn view(&self) -> ChildRegistrationErrorView {
        ChildRegistrationErrorView {
            message: self.message@,
            exit_evidence: self.exit_evidence,
        }
    }
}

impl Clone for ChildRegistrationError {
    fn clone(&self) -> (copy: Self)
        ensures
            copy@ == self@,
    {
        ChildRegistrationError {
            message: self.message.clone(),
            exit_evidence: self.exit_evidence,
        }
    }
}

/// Results in words: several failures joined by semicolons.
pub open spec fn failures_joined(failures: Seq<Seq<char>>) -> Seq<char>
    decreases failures.len(),
{
    if failures.len() == 0 {
        Seq::empty()
    } else if failures.len() == 1 {
        failures[0]
    } else {
        failures_joined(failures.drop_last()) + "; "@ + failures.last()
    }
}

/// The failures among results, in their order.
pub open spec fn failures_among(results: Seq<Result<(), Seq<char>>>) -> Seq<Seq<char>>
    decreases results.len(),
{
    if results.len() == 0 {
        Seq::empty()
    } else {
        let earlier = failures_among(results.drop_last());
        match results.last() {
            Ok(()) => earlier,
            Err(message) => earlier.push(message),
        }
    }
}

/// The content of several results.
pub open spec fn told_all(results: Seq<Result<(), String>>) -> Seq<Result<(), Seq<char>>> {
    results.map_values(|result: Result<(), String>| told(result))
}

/// Joins the failures among results; nothing where there is none.
pub(crate) fn join_failures(results: &Vec<Result<(), String>>) -> (text: Option<String>)
    ensures
        match text {
            None => failures_among(told_all(results@)).len() == 0,
            Some(text) => failures_among(told_all(results@)).len() > 0 && text@ == failures_joined(
                failures_among(told_all(results@)),
            ),
        },
{
    let ghost all = told_all(results@);
    let mut text: Option<String> = None;
    let mut index: usize = 0;
    while index < results.len()
        invariant
            index <= results@.len(),
            all == told_all(results@),
            match text {
                None => failures_among(all.take(index as int)).len() == 0,
                Some(text) => failures_among(all.take(index as int)).len() > 0 && text@
                    == failures_joined(failures_among(all.take(index as int))),
            },
        decreases results@.len() - index,
    {
        let ghost before = failures_among(all.take(index as int));
        proof {
            assert(all.take(index + 1).drop_last() =~= all.take(index as int));
            assert(all.take(index + 1).last() == told(results@[index as int]));
        }
        match &results[index] {
            Ok(()) => {},
            Err(message) => {
                proof {
                    assert(before.push(message@).drop_last() =~= before);
                }
                text = Some(
                    match text {
                        None => message.clone(),
                        Some(text) => {
                            let mut longer = joined(text.as_str(), "; ");
                            longer.append(message.as_str());
                            longer
                        },
                    },
                );
            },
        }
        index = index + 1;
    }
    proof {
        assert(all.take(index as int) =~= all);
    }
    text
}

/// What stopping a child that was never registered proves: only an observed exit is a proof.
pub open spec fn unregistered_stopped(
    root: Seq<char>,
    termination: Result<(), Seq<char>>,
    exit: Result<(), Seq<char>>,
) -> ChildRegistrationErrorView {
    match (termination, exit) {
        (Ok(()), Ok(())) => ChildRegistrationErrorView {
            message: root,
            exit_evidence: ChildExitEvidence::Proven,
        },
        (Err(termination), Ok(())) => ChildRegistrationErrorView {
            message: root
                + "; unregistered direct child termination request failed after observed exit: "@
                + termination,
            exit_evidence: ChildExitEvidence::Proven,
        },
        (Ok(()), Err(exit)) => ChildRegistrationErrorView {
            message: root + "; unregistered direct child exit could not be observed: "@ + exit,
            exit_evidence: ChildExitEvidence::Unproven,
        },
        (Err(termination), Err(exit)) => ChildRegistrationErrorView {
            message: root + "; unregistered direct child termination failed: "@ + termination
                + "; direct child exit could not be observed: "@ + exit,
            exit_evidence: ChildExitEvidence::Unproven,
        },
    }
}

/// Tells what stopping a child that was never registered proves.
pub fn stop_unregistered(
    root: &str,
    termination: &Result<(), String>,
    exit: &Result<(), String>,
) -> (error: ChildRegistrationError)
    ensures
        error@ == unregistered_stopped(root@, told(*termination), told(*exit)),
{
    match (termination, exit) {
        (Ok(()), Ok(())) => ChildRegistrationError {
            message: root.to_owned(),
            exit_evidence: ChildExitEvidence::Proven,
        },
        (Err(termination), Ok(())) => ChildRegistrationError {
            message: joined3(
                root,
                "; unregistered direct child termination request failed after observed exit: ",
                termination.as_str(),
            ),
            exit_evidence: ChildExitEvidence::Proven,
        },
        (Ok(()), Err(exit)) => ChildRegistrationError {
            message: joined3(
                root,
                "; unregistered direct child exit could not be observed: ",
                exit.as_str(),
            ),
            exit_evidence: ChildExitEvidence::Unproven,
        },
        (Err(termination), Err(exit)) => {
            let mut message = joined3(
                root,
                "; unregistered direct child termination failed: ",
                termination.as_str(),
            );
            message.append("; direct child exit could not be observed: ");
            message.append(exit.as_str());
            ChildRegistrationError { message, exit_evidence: ChildExitEvidence::Unproven }
        },
    }
}

/// A child counts as exited exactly where its exit was observed, whatever became of the request to
/// terminate it.
pub proof fn only_an_observed_exit_is_proof(
    root: Seq<char>,
    termination: Result<(), Seq<char>>,
    exit: Result<(), Seq<char>>,
)
    ensures
        unregistered_stopped(root, termination, exit).exit_evidence is Proven <==> exit is Ok,
{
}

/// The direct child of an operation, which must have one to be used.
pub fn child_found<T>(found: Option<T>) -> (owned: Result<T, String>)
    ensures
        match found {
            Some(value) => owned == Ok::<T, String>(value),
            None => owned matches Err(message) && message@ == "direct child is not active"@,
        },
{
    match found {
        Some(value) => Ok(value),
        None => Err("direct child is not active".to_owned()),
    }
}

/// Tells what became of removing the direct child of an operation that is over.
pub fn child_removed(found: bool) -> (result: Result<(), String>)
    ensures
        told(result) == (if found {
            Ok(())
        } else {
            Err("direct child disappeared before execution completed"@)
        }),
{
    if found {
        Ok(())
    } else {
        Err("direct child disappeared before execution completed".to_owned())
    }
}

} // verus!
