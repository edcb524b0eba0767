//! Project persistence.

use vstd::prelude::*;

use crate::contract::control::{
    conflict, OperatorError, OperatorErrorView, ProjectRegistration, ProjectRegistrationView,
};
use crate::contract::identity::ProjectId;
use crate::order::{insert_in_order, lemma_insert_contains, ordered, Ranked};
use crate::state::decision::{answer, changed, decision, unchanged, Decided};
use crate::keyed::lookup;
use crate::state::tables::{Change, ChangeView, Tables, TablesView};
use crate::text::{
    lemma_text_irreflexive, lemma_text_total, lemma_text_transitive, precedes, text_before, views,
};

verus! {

/// What registering a project yields: a name is registered once, and again only with the same
/// configuration.
pub open spec fn registration(tables: TablesView, project: ProjectRegistrationView) -> Result<
    (ProjectRegistrationView, Seq<ChangeView>),
    OperatorErrorView,
> {
    match lookup(tables.projects, project.project_id) {
        Some(existing) => if existing == project {
            Ok((existing, Seq::empty()))
        } else {
            Err(
                conflict(
                    "project_id is already registered with different configuration"@,
                ),
            )
        },
        None => Ok((project, seq![ChangeView::InsertProject(project)])),
    }
}

/// What reading a project yields.
pub open spec fn registered(tables: TablesView, project_id: Seq<char>) -> Result<
    ProjectRegistrationView,
    OperatorErrorView,
> {
    match lookup(tables.projects, project_id) {
        Some(project) => Ok(project),
        None => Err(OperatorErrorView::UnknownProject(project_id)),
    }
}

/// Whether a list is every project, by rising name.
pub open spec fn every_project(tables: TablesView, list: Seq<ProjectRegistrationView>) -> bool {
    &&& forall|i: int, j: int|
        #![trigger list[i], list[j]]
        0 <= i < j < list.len() ==> text_before(list[i].project_id, list[j].project_id)
    &&& forall|project: ProjectRegistrationView| #[trigger]
        list.contains(project) <==> lookup(tables.projects, project.project_id) == Some(project)
}

impl Ranked for ProjectRegistration {
    open spec fn before(left: ProjectRegistrationView, right: ProjectRegistrationView) -> bool {
        text_before(left.project_id, right.project_id)
    }

    proof fn irreflexive(value: ProjectRegistrationView) {
        lemma_text_irreflexive(value.project_id);
    }

    proof fn transitive(
        first: ProjectRegistrationView,
        second: ProjectRegistrationView,
        third: ProjectRegistrationView,
    ) {
        lemma_text_transitive(first.project_id, second.project_id, third.project_id);
    }

    fn ranks_before(&self, other: &Self) -> (before: bool) {
        precedes(self.project_id.as_str(), other.project_id.as_str())
    }
}

impl Tables {
    /// Registers a project.
    pub fn register_project(&self, project: ProjectRegistration) -> (registered: Result<
        Decided<ProjectRegistration>,
        OperatorError,
    >)
        requires
            self.well_formed(),
        ensures
            decision(registered) == registration(self@, project@),
    {
        match self.project(&project.project_id) {
            Some(existing) => {
                if existing.same(&project) {
                    unchanged(existing.clone())
                } else {
                    Err(
                        OperatorError::Conflict(
                            "project_id is already registered with different configuration".to_owned(),
                        ),
                    )
                }
            },
            None => {
                let mut changes = Vec::new();
                changes.push(Change::InsertProject(project.clone()));
                proof {
                    assert(views(changes@) =~= seq![ChangeView::InsertProject(project@)]);
                }
                changed(project, changes)
            },
        }
    }

    /// The registration under a name.
    pub fn get_project(&self, project_id: &ProjectId) -> (found: Result<
        ProjectRegistration,
        OperatorError,
    >)
        requires
            self.well_formed(),
        ensures
            answer(found) == registered(self@, project_id@),
    {
        match self.project(project_id) {
            Some(project) => Ok(project.clone()),
            None => Err(OperatorError::UnknownProject(project_id.as_str().to_owned())),
        }
    }

    /// Every registration, by rising name.
    pub fn list_projects(&self) -> (list: Vec<ProjectRegistration>)
        requires
            self.well_formed(),
        ensures
            every_project(self@, views(list@)),
    {
        let ghost rows = self.project_rows();
        proof {
            self.lemma_project_rows();
            self.lemma_consistent();
        }
        let mut list: Vec<ProjectRegistration> = Vec::new();
        let mut index: usize = 0;
        while index < self.project_count()
            invariant
                index <= rows.len(),
                rows == self.project_rows(),
                forall|i: int, j: int|
                    #![trigger rows[i], rows[j]]
                    0 <= i < rows.len() && 0 <= j < rows.len() && rows[i].project_id
                        == rows[j].project_id ==> i == j,
                ordered::<ProjectRegistration>(views(list@)),
                forall|i: int, j: int|
                    #![trigger views(list@)[i], views(list@)[j]]
                    0 <= i < j < list@.len() ==> views(list@)[i].project_id
                        != views(list@)[j].project_id,
                forall|p: ProjectRegistrationView| #[trigger]
                    views(list@).contains(p) <==> exists|k: int|
                        0 <= k < index && #[trigger] rows[k] == p,
            decreases rows.len() - index,
        {
            let ghost before = views(list@);
            let item = self.project_at(index).clone();
            let ghost added = item@;
            insert_in_order(&mut list, item);
            proof {
                let at = choose|at: int|
                    0 <= at <= before.len() && views(list@) == #[trigger] before.insert(at, added);
                let after = views(list@);
                assert forall|i: int| 0 <= i < before.len() implies (
                #[trigger] before[i]).project_id != added.project_id by {
                    assert(before.contains(before[i]));
                }
                assert forall|i: int, j: int|
                    #![trigger after[i], after[j]]
                    0 <= i < j < after.len() implies after[i].project_id
                    != after[j].project_id by {
                    let fi = if i <= at { i } else { i - 1 };
                    let fj = if j <= at { j } else { j - 1 };
                    if i != at {
                        assert(after[i] == before[fi]);
                    }
                    if j != at {
                        assert(after[j] == before[fj]);
                    }
                }
                assert forall|p: ProjectRegistrationView| #[trigger]
                    after.contains(p) <==> exists|k: int|
                        0 <= k < index + 1 && #[trigger] rows[k] == p by {
                    lemma_insert_contains(before, at, added, p);
                    assert(rows[index as int] == added);
                }
            }
            index = index + 1;
        }
        proof {
            let found = views(list@);
            assert forall|i: int, j: int|
                #![trigger found[i], found[j]]
                0 <= i < j < found.len() implies text_before(
                found[i].project_id,
                found[j].project_id,
            ) by {
                lemma_text_total(found[i].project_id, found[j].project_id);
            }
            assert forall|p: ProjectRegistrationView| #[trigger]
                found.contains(p) <==> lookup(self@.projects, p.project_id) == Some(p) by {
                if lookup(self@.projects, p.project_id) == Some(p) {
                    assert(self@.projects.contains_key(p.project_id));
                }
            }
        }
        list
    }
}

} // verus!
