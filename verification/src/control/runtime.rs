//! The cancellation gates of the operations that run now.

use vstd::prelude::*;

use crate::contract::control::{state_failure, OperatorError};
use crate::contract::identity::OperationId;
use crate::keyed::{
    distinct, keyed, lemma_absent, lemma_push, lemma_remove, lemma_row, lemma_update, lookup,
};

verus! {

/// What became of a cancellation.
#[derive(Clone, Copy, Debug, PartialEq, Eq, Structural)]
pub enum CancellationOutcome {
    Signalled,
    GateAbsent,
}

/// Lets one operation be cancelled, and tells whether it was signalled.
#[derive(Clone, Copy, Debug, PartialEq, Eq, Structural)]
pub struct Gate {
    pub operation_id: OperationId,
    pub signalled: bool,
}

spec fn gate_key() -> spec_fn(Gate) -> OperationId {
    |gate: Gate| gate.operation_id
}

/// The gates after an operation was signalled, if it has one.
pub open spec fn signalled(gates: Map<OperationId, Gate>, operation_id: OperationId) -> Map<
    OperationId,
    Gate,
> {
    if gates.contains_key(operation_id) {
        gates.insert(operation_id, Gate { operation_id, signalled: true })
    } else {
        gates
    }
}

/// The gates of the operations that run now.
pub struct RuntimeGate {
    slots: Vec<Gate>,
}

impl View for RuntimeGate {
    type V = Map<OperationId, Gate>;

    closed spec fn view(&self) -> Map<OperationId, Gate> {
        keyed(self.slots@, gate_key())
    }
}

impl RuntimeGate {
    /// Whether no operation has two gates.
    pub closed spec fn well_formed(&self) -> bool {
        distinct(self.slots@, gate_key())
    }

    /// No operation runs.
    pub fn new() -> (gate: RuntimeGate)
        ensures
            gate.well_formed(),
            gate@ == Map::<OperationId, Gate>::empty(),
    {
        let gate = RuntimeGate { slots: Vec::new() };
        proof {
            assert(gate@ =~= Map::<OperationId, Gate>::empty());
        }
        gate
    }

    fn slot_index(&self, operation_id: OperationId) -> (found: Option<usize>)
        requires
            self.well_formed(),
        ensures
            match found {
                Some(index) => index < self.slots@.len() && self.slots@[index as int].operation_id
                    == operation_id && lookup(self@, operation_id) == Some(
                    self.slots@[index as int],
                ),
                None => lookup(self@, operation_id) == None::<Gate>,
            },
    {
        let mut index: usize = 0;
        while index < self.slots.len()
            invariant
                index <= self.slots@.len(),
                self.well_formed(),
                forall|i: int|
                    0 <= i < index ==> gate_key()(#[trigger] self.slots@[i]) != operation_id,
            decreases self.slots@.len() - index,
        {
            if self.slots[index].operation_id == operation_id {
                proof {
                    lemma_row(self.slots@, gate_key(), index as int);
                }
                return Some(index);
            }
            index = index + 1;
        }
        proof {
            lemma_absent(self.slots@, gate_key(), operation_id);
        }
        None
    }

    /// Opens a gate that is not signalled. One that is already there is refused, and starts over.
    pub fn open(&mut self, operation_id: OperationId) -> (opened: Result<(), OperatorError>)
        requires
            old(self).well_formed(),
        ensures
            final(self).well_formed(),
            final(self)@ == old(self)@.insert(
                operation_id,
                Gate { operation_id, signalled: false },
            ),
            match opened {
                Ok(()) => !old(self)@.contains_key(operation_id),
                Err(error) => old(self)@.contains_key(operation_id) && error@ == state_failure(
                    "operation runtime gate already exists"@,
                ),
            },
    {
        let gate = Gate { operation_id, signalled: false };
        match self.slot_index(operation_id) {
            Some(index) => {
                proof {
                    lemma_update(self.slots@, gate_key(), index as int, gate);
                }
                self.slots.set(index, gate);
                Err(OperatorError::State("operation runtime gate already exists".to_owned()))
            },
            None => {
                proof {
                    lemma_push(self.slots@, gate_key(), gate);
                }
                self.slots.push(gate);
                Ok(())
            },
        }
    }

    /// Signals an operation, if it has a gate.
    pub fn cancel(&mut self, operation_id: OperationId) -> (outcome: CancellationOutcome)
        requires
            old(self).well_formed(),
        ensures
            final(self).well_formed(),
            final(self)@ == signalled(old(self)@, operation_id),
            match outcome {
                CancellationOutcome::Signalled => old(self)@.contains_key(operation_id),
                CancellationOutcome::GateAbsent => !old(self)@.contains_key(operation_id),
            },
    {
        match self.slot_index(operation_id) {
            Some(index) => {
                let gate = Gate { operation_id, signalled: true };
                proof {
                    lemma_update(self.slots@, gate_key(), index as int, gate);
                }
                self.slots.set(index, gate);
                CancellationOutcome::Signalled
            },
            None => CancellationOutcome::GateAbsent,
        }
    }

    /// Whether an operation was signalled.
    pub fn cancelled(&self, operation_id: OperationId) -> (cancelled: bool)
        requires
            self.well_formed(),
        ensures
            cancelled == (self@.contains_key(operation_id) && self@[operation_id].signalled),
    {
        match self.slot_index(operation_id) {
            Some(index) => self.slots[index].signalled,
            None => false,
        }
    }

    /// Removes an operation.
    pub fn release(&mut self, operation_id: OperationId) -> (released: Result<(), OperatorError>)
        requires
            old(self).well_formed(),
        ensures
            final(self).well_formed(),
            final(self)@ == old(self)@.remove(operation_id),
            match released {
                Ok(()) => old(self)@.contains_key(operation_id),
                Err(error) => !old(self)@.contains_key(operation_id) && error@ == state_failure(
                    "operation runtime gate disappeared"@,
                ),
            },
    {
        match self.slot_index(operation_id) {
            Some(index) => {
                proof {
                    lemma_remove(self.slots@, gate_key(), index as int);
                }
                self.slots.remove(index);
                Ok(())
            },
            None => {
                proof {
                    assert(self@.remove(operation_id) =~= self@);
                }
                Err(OperatorError::State("operation runtime gate disappeared".to_owned()))
            },
        }
    }
}

} // verus!
