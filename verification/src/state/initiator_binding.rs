//! Persistence of exact initiator bindings, without interpreting their business meaning.

use vstd::prelude::*;

use crate::contract::control::{
    BindingPersistence, InitiatorBinding, InitiatorBindingView, InitiatorIdentity,
    InitiatorIdentityView, OperatorError, OperatorErrorView,
};
use crate::contract::identity::{InitiatorAgentIdentity, InitiatorSessionIdentity, ProjectId};
use crate::order::{insert_in_order, lemma_insert_contains, ordered, Ranked};
use crate::state::decision::{changed, decision, unchanged, Decided};
use crate::keyed::lookup;
use crate::state::tables::{Change, ChangeView, Tables, TablesView};
use crate::text::{
    lemma_text_irreflexive, lemma_text_total, lemma_text_transitive, optional, precedes,
    text_before, views,
};

verus! {

/// What persisting a binding yields: an identity is bound once, and a later binding of it changes
/// nothing but tells the session it is bound to.
pub open spec fn binding_persistence(tables: TablesView, binding: InitiatorBindingView) -> (
    BindingPersistence,
    Seq<ChangeView>,
) {
    match lookup(tables.bindings, (binding.project_id, binding.identity)) {
        Some(existing) => (
            BindingPersistence::Existing { target_session_id: existing.target_session_id },
            Seq::empty(),
        ),
        None => (BindingPersistence::Inserted, seq![ChangeView::InsertBinding(binding)]),
    }
}

/// The order of bindings of one initiator: by role, then task, then subject.
pub open spec fn identity_before(
    left: InitiatorIdentityView,
    right: InitiatorIdentityView,
) -> bool {
    ||| text_before(left.role_id, right.role_id)
    ||| left.role_id == right.role_id && text_before(left.task_id, right.task_id)
    ||| left.role_id == right.role_id && left.task_id == right.task_id && text_before(
        left.subject_id,
        right.subject_id,
    )
}

/// Whether a binding belongs to the initiator in the project.
pub open spec fn binding_of_initiator(
    binding: InitiatorBindingView,
    project_id: Seq<char>,
    initiator_session_id: Seq<char>,
    initiator_agent_id: Seq<char>,
) -> bool {
    &&& binding.project_id == project_id
    &&& binding.identity.initiator_session_id == initiator_session_id
    &&& binding.identity.initiator_agent_id == initiator_agent_id
}

/// Whether a list is every binding of the initiator in the project, in order.
pub open spec fn every_binding(
    tables: TablesView,
    project_id: Seq<char>,
    initiator_session_id: Seq<char>,
    initiator_agent_id: Seq<char>,
    list: Seq<InitiatorBindingView>,
) -> bool {
    &&& forall|i: int, j: int|
        #![trigger list[i], list[j]]
        0 <= i < j < list.len() ==> identity_before(list[i].identity, list[j].identity)
    &&& forall|binding: InitiatorBindingView| #[trigger]
        list.contains(binding) <==> lookup(
            tables.bindings,
            (binding.project_id, binding.identity),
        ) == Some(binding) && binding_of_initiator(
            binding,
            project_id,
            initiator_session_id,
            initiator_agent_id,
        )
}

impl Ranked for InitiatorBinding {
    open spec fn before(left: InitiatorBindingView, right: InitiatorBindingView) -> bool {
        identity_before(left.identity, right.identity)
    }

    proof fn irreflexive(value: InitiatorBindingView) {
        lemma_text_irreflexive(value.identity.role_id);
        lemma_text_irreflexive(value.identity.task_id);
        lemma_text_irreflexive(value.identity.subject_id);
    }

    proof fn transitive(
        first: InitiatorBindingView,
        second: InitiatorBindingView,
        third: InitiatorBindingView,
    ) {
        let (a, b, c) = (first.identity, second.identity, third.identity);
        if text_before(a.role_id, b.role_id) && text_before(b.role_id, c.role_id) {
            lemma_text_transitive(a.role_id, b.role_id, c.role_id);
        }
        if text_before(a.task_id, b.task_id) && text_before(b.task_id, c.task_id) {
            lemma_text_transitive(a.task_id, b.task_id, c.task_id);
        }
        if text_before(a.subject_id, b.subject_id) && text_before(b.subject_id, c.subject_id) {
            lemma_text_transitive(a.subject_id, b.subject_id, c.subject_id);
        }
    }

    fn ranks_before(&self, other: &Self) -> (before: bool) {
        let left = &self.identity;
        let right = &other.identity;
        if precedes(left.role_id.as_str(), right.role_id.as_str()) {
            return true;
        }
        if !left.role_id.same(&right.role_id) {
            return false;
        }
        if precedes(left.task_id.as_str(), right.task_id.as_str()) {
            return true;
        }
        left.task_id.same(&right.task_id) && precedes(
            left.subject_id.as_str(),
            right.subject_id.as_str(),
        )
    }
}

impl Tables {
    /// Persists a binding of an identity that has none.
    pub fn persist_initiator_binding(&self, binding: &InitiatorBinding) -> (persisted: Result<
        Decided<BindingPersistence>,
        OperatorError,
    >)
        requires
            self.well_formed(),
        ensures
            decision(persisted) == Ok::<_, OperatorErrorView>(binding_persistence(self@, binding@)),
    {
        match self.binding(&binding.project_id, &binding.identity) {
            Some(existing) => unchanged(
                BindingPersistence::Existing { target_session_id: existing.target_session_id },
            ),
            None => {
                let mut changes = Vec::new();
                changes.push(Change::InsertBinding(binding.clone()));
                proof {
                    assert(views(changes@) =~= seq![ChangeView::InsertBinding(binding@)]);
                }
                changed(BindingPersistence::Inserted, changes)
            },
        }
    }

    /// The binding of an exact identity.
    pub fn get_initiator_binding(&self, project_id: &ProjectId, identity: &InitiatorIdentity) -> (
    found: Option<InitiatorBinding>)
        requires
            self.well_formed(),
        ensures
            optional(found) == lookup(self@.bindings, (project_id@, identity@)),
    {
        match self.binding(project_id, identity) {
            Some(binding) => Some(binding.clone()),
            None => None,
        }
    }

    /// Every binding of one initiator in a project, by role, task and subject.
    pub fn list_initiator_bindings_for_initiator(
        &self,
        project_id: &ProjectId,
        initiator_session_id: &InitiatorSessionIdentity,
        initiator_agent_id: &InitiatorAgentIdentity,
    ) -> (list: Vec<InitiatorBinding>)
        requires
            self.well_formed(),
        ensures
            every_binding(
                self@,
                project_id@,
                initiator_session_id@,
                initiator_agent_id@,
                views(list@),
            ),
    {
        let ghost rows = self.binding_rows();
        let ghost wanted = |b: InitiatorBindingView|
            binding_of_initiator(b, project_id@, initiator_session_id@, initiator_agent_id@);
        proof {
            self.lemma_binding_rows();
            self.lemma_consistent();
        }
        let mut list: Vec<InitiatorBinding> = Vec::new();
        let mut index: usize = 0;
        while index < self.binding_count()
            invariant
                index <= rows.len(),
                rows == self.binding_rows(),
                wanted == (|b: InitiatorBindingView|
                    binding_of_initiator(
                        b,
                        project_id@,
                        initiator_session_id@,
                        initiator_agent_id@,
                    )),
                forall|i: int, j: int|
                    #![trigger rows[i], rows[j]]
                    0 <= i < rows.len() && 0 <= j < rows.len() && (
                        rows[i].project_id,
                        rows[i].identity,
                    ) == (rows[j].project_id, rows[j].identity) ==> i == j,
                ordered::<InitiatorBinding>(views(list@)),
                forall|i: int, j: int|
                    #![trigger views(list@)[i], views(list@)[j]]
                    0 <= i < j < list@.len() ==> views(list@)[i].identity
                        != views(list@)[j].identity,
                forall|b: InitiatorBindingView| #[trigger]
                    views(list@).contains(b) <==> wanted(b) && exists|k: int|
                        0 <= k < index && #[trigger] rows[k] == b,
            decreases rows.len() - index,
        {
            let row = self.binding_at(index);
            let ghost before = views(list@);
            if row.project_id.same(project_id) && row.identity.initiator_session_id.same(
                initiator_session_id,
            ) && row.identity.initiator_agent_id.same(initiator_agent_id) {
                let item = row.clone();
                let ghost added = item@;
                insert_in_order(&mut list, item);
                proof {
                    let at = choose|at: int|
                        0 <= at <= before.len() && views(list@) == #[trigger] before.insert(
                            at,
                            added,
                        );
                    let after = views(list@);
                    assert(rows[index as int] == added && wanted(added));
                    assert forall|i: int| 0 <= i < before.len() implies (
                    #[trigger] before[i]).identity != added.identity by {
                        assert(before.contains(before[i]));
                    }
                    assert forall|i: int, j: int|
                        #![trigger after[i], after[j]]
                        0 <= i < j < after.len() implies after[i].identity
                        != after[j].identity by {
                        let fi = if i <= at { i } else { i - 1 };
                        let fj = if j <= at { j } else { j - 1 };
                        if i != at {
                            assert(after[i] == before[fi]);
                        }
                        if j != at {
                            assert(after[j] == before[fj]);
                        }
                    }
                    assert forall|b: InitiatorBindingView| #[trigger]
                        after.contains(b) <==> wanted(b) && exists|k: int|
                            0 <= k < index + 1 && #[trigger] rows[k] == b by {
                        lemma_insert_contains(before, at, added, b);
                    }
                }
            }
            index = index + 1;
        }
        proof {
            let found = views(list@);
            assert forall|i: int, j: int|
                #![trigger found[i], found[j]]
                0 <= i < j < found.len() implies identity_before(
                found[i].identity,
                found[j].identity,
            ) by {
                assert(found.contains(found[i]));
                assert(found.contains(found[j]));
                let (a, b) = (found[i].identity, found[j].identity);
                lemma_text_total(a.role_id, b.role_id);
                lemma_text_total(a.task_id, b.task_id);
                lemma_text_total(a.subject_id, b.subject_id);
            }
            assert forall|b: InitiatorBindingView| #[trigger]
                found.contains(b) <==> lookup(self@.bindings, (b.project_id, b.identity)) == Some(b)
                    && wanted(b) by {
                if lookup(self@.bindings, (b.project_id, b.identity)) == Some(b) {
                    assert(self@.bindings.contains_key((b.project_id, b.identity)));
                }
            }
        }
        list
    }
}

} // verus!
