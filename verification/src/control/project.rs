//! Resolves trusted project records for operation coordination.

use vstd::prelude::*;

use crate::contract::control::{
    invalid_request, OperatorError, OperatorErrorView, ProjectRegistration,
    ProjectRegistrationView,
};
use crate::contract::identity::ProjectId;
use crate::state::decision::{answer, decision, Decided};
use crate::state::project::{every_project, registered, registration};
use crate::state::tables::{ChangeView, Tables, TablesView};
use crate::text::views;

verus! {

/// Why a registration is refused before it is looked up, if it is.
pub open spec fn registration_refusal(project: ProjectRegistrationView) -> Option<OperatorErrorView> {
    if project.expected_opus_model.len() == 0 {
        Some(invalid_request("expected_opus_model must not be empty"@))
    } else if project.working_directory.len() == 0 || project.claude_executable.len() == 0 {
        Some(invalid_request("project paths must not be empty"@))
    } else {
        None
    }
}

/// What a request to register a project yields.
pub open spec fn registering(tables: TablesView, project: ProjectRegistrationView) -> Result<
    (ProjectRegistrationView, Seq<ChangeView>),
    OperatorErrorView,
> {
    match registration_refusal(project) {
        Some(error) => Err(error),
        None => registration(tables, project),
    }
}

/// What resolving a project for a launch yields, where the flag tells whether its registered
/// working directory is a directory.
pub open spec fn resolved(tables: TablesView, project_id: Seq<char>, is_directory: bool) -> Result<
    ProjectRegistrationView,
    OperatorErrorView,
> {
    match registered(tables, project_id) {
        Err(error) => Err(error),
        Ok(project) => if is_directory {
            Ok(project)
        } else {
            Err(invalid_request("registered working_directory is not a directory"@))
        },
    }
}

/// Registers a project.
pub fn register(tables: &Tables, project: ProjectRegistration) -> (registered: Result<
    Decided<ProjectRegistration>,
    OperatorError,
>)
    requires
        tables.well_formed(),
    ensures
        decision(registered) == registering(tables@, project@),
{
    match project.validate() {
        Ok(()) => tables.register_project(project),
        Err(error) => Err(error),
    }
}

/// The registration under a name.
pub fn get(tables: &Tables, project_id: &ProjectId) -> (found: Result<
    ProjectRegistration,
    OperatorError,
>)
    requires
        tables.well_formed(),
    ensures
        answer(found) == registered(tables@, project_id@),
{
    tables.get_project(project_id)
}

/// Every registration, by rising name.
pub fn list(tables: &Tables) -> (list: Vec<ProjectRegistration>)
    requires
        tables.well_formed(),
    ensures
        every_project(tables@, views(list@)),
{
    tables.list_projects()
}

/// Resolves a project for a launch, where the flag tells whether its registered working directory
/// is a directory.
pub fn resolve(tables: &Tables, project_id: &ProjectId, is_directory: bool) -> (found: Result<
    ProjectRegistration,
    OperatorError,
>)
    requires
        tables.well_formed(),
    ensures
        answer(found) == resolved(tables@, project_id@, is_directory),
{
    match get(tables, project_id) {
        Err(error) => Err(error),
        Ok(project) => {
            if !is_directory {
                return Err(
                    OperatorError::InvalidRequest(
                        "registered working_directory is not a directory".to_owned(),
                    ),
                );
            }
            Ok(project)
        },
    }
}

} // verus!
