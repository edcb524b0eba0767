//! Identities: the numbers and texts by which the operator names its subjects.

use core::marker::PhantomData;

use vstd::prelude::*;
use vstd::string::*;

use crate::contract::control::OperatorError;
use crate::identifier::{display_uuid, random_uuid, random_uuid_layout, uuid_text};
use crate::text::joined;

verus! {

/// The caller's identity for one request.
#[derive(Clone, Copy, Debug, PartialEq, Eq, Structural, Hash)]
pub struct RequestId(pub u128);

impl RequestId {
    pub fn new(value: u128) -> (request: Self)
        ensures
            request == RequestId(value),
    {
        RequestId(value)
    }

    pub fn value(self) -> (value: u128)
        ensures
            value == self.0,
    {
        self.0
    }
}

/// The operator's identity for one operation.
#[derive(Clone, Copy, Debug, PartialEq, Eq, Structural, Hash)]
pub struct OperationId(pub u128);

impl OperationId {
    /// A fresh random identity.
    pub fn new() -> (operation: Self)
        ensures
            random_uuid_layout(operation.0),
    {
        OperationId(random_uuid())
    }

    pub fn new_exact(value: u128) -> (operation: Self)
        ensures
            operation == OperationId(value),
    {
        OperationId(value)
    }

    pub fn value(self) -> (value: u128)
        ensures
            value == self.0,
    {
        self.0
    }

    /// The identity as text.
    pub fn to_text(self) -> (text: String)
        ensures
            text@ == uuid_text(self.0),
    {
        display_uuid(self.0)
    }
}

impl Default for OperationId {
    /// A fresh random identity.
    fn default() -> (operation: Self)
        ensures
            random_uuid_layout(operation.0),
    {
        OperationId::new()
    }
}

/// A session of the target.
#[derive(Clone, Copy, Debug, PartialEq, Eq, Structural, Hash)]
pub struct SessionId(pub u128);

impl SessionId {
    /// A fresh random identity.
    pub fn new() -> (session: Self)
        ensures
            random_uuid_layout(session.0),
    {
        SessionId(random_uuid())
    }

    pub fn new_exact(value: u128) -> (session: Self)
        ensures
            session == SessionId(value),
    {
        SessionId(value)
    }

    pub fn value(self) -> (value: u128)
        ensures
            value == self.0,
    {
        self.0
    }

    /// The identity as text.
    pub fn to_text(self) -> (text: String)
        ensures
            text@ == uuid_text(self.0),
    {
        display_uuid(self.0)
    }
}

impl Default for SessionId {
    /// A fresh random identity.
    fn default() -> (session: Self)
        ensures
            random_uuid_layout(session.0),
    {
        SessionId::new()
    }
}

/// The caller's identity for one turn of a conversation.
#[derive(Clone, Copy, Debug, PartialEq, Eq, Structural, Hash)]
pub struct TurnId(pub u128);

impl TurnId {
    pub fn new(value: u128) -> (turn: Self)
        ensures
            turn == TurnId(value),
    {
        TurnId(value)
    }

    pub fn value(self) -> (value: u128)
        ensures
            value == self.0,
    {
        self.0
    }
}

/// A live conversation, named by the operation that carries it.
#[derive(Clone, Copy, Debug, PartialEq, Eq, Structural, Hash)]
pub struct ConversationId(pub OperationId);

impl ConversationId {
    pub fn new(operation: OperationId) -> (conversation: Self)
        ensures
            conversation == ConversationId(operation),
    {
        ConversationId(operation)
    }

    pub fn operation_id(self) -> (operation: OperationId)
        ensures
            operation == self.0,
    {
        self.0
    }
}

/// The name of a registered project. It is never empty.
#[derive(Debug, PartialEq, Eq, Hash)]
pub struct ProjectId(String);

impl View for ProjectId {
    type V = Seq<char>;

    closed spec fn view(&self) -> Seq<char> {
        self.0@
    }
}

impl ProjectId {
    #[verifier::type_invariant]
    spec fn named(self) -> bool {
        self.0@.len() > 0
    }

    /// Accepts any text but the empty one.
    pub fn new(value: String) -> (project: Result<Self, OperatorError>)
        ensures
            match project {
                Ok(project) => value@.len() > 0 && project@ == value@,
                Err(error) => value@.len() == 0 && error@
                    == crate::contract::control::invalid_request(
                    "project_id must not be empty"@,
                ),
            },
    {
        if value.as_str().is_empty() {
            return Err(OperatorError::InvalidRequest("project_id must not be empty".to_owned()));
        }
        Ok(ProjectId(value))
    }

    pub fn as_str(&self) -> (text: &str)
        ensures
            text@ == self@,
            text@.len() > 0,
    {
        proof {
            use_type_invariant(self);
        }
        self.0.as_str()
    }

    /// Whether two names are the same.
    pub fn same(&self, other: &ProjectId) -> (same: bool)
        ensures
            same == (self@ == other@),
    {
        self.0 == other.0
    }
}

impl Clone for ProjectId {
    fn clone(&self) -> (copy: Self)
        ensures
            copy@ == self@,
    {
        proof {
            use_type_invariant(self);
        }
        ProjectId(self.0.clone())
    }
}

/// What one kind of identity is called in a request.
pub trait IdentityKind {
    spec fn field() -> Seq<char>;

    fn field_name() -> (name: &'static str)
        ensures
            name@ == Self::field(),
    ;
}

/// A caller-supplied identity of one kind. It is never empty.
#[derive(Debug, PartialEq, Eq, Hash)]
pub struct Identity<K: IdentityKind> {
    value: String,
    marker: PhantomData<K>,
}

impl<K: IdentityKind> View for Identity<K> {
    type V = Seq<char>;

    closed spec fn view(&self) -> Seq<char> {
        self.value@
    }
}

impl<K: IdentityKind> Identity<K> {
    #[verifier::type_invariant]
    spec fn named(self) -> bool {
        self.value@.len() > 0
    }

    /// Accepts any text but the empty one.
    pub fn new(value: String) -> (identity: Result<Self, OperatorError>)
        ensures
            match identity {
                Ok(identity) => value@.len() > 0 && identity@ == value@,
                Err(error) => value@.len() == 0 && error@
                    == crate::contract::control::invalid_request(
                    K::field() + " must not be empty"@,
                ),
            },
    {
        if value.as_str().is_empty() {
            return Err(
                OperatorError::InvalidRequest(joined(K::field_name(), " must not be empty")),
            );
        }
        Ok(Identity { value, marker: PhantomData })
    }

    pub fn as_str(&self) -> (text: &str)
        ensures
            text@ == self@,
            text@.len() > 0,
    {
        proof {
            use_type_invariant(self);
        }
        self.value.as_str()
    }

    /// Whether two identities are the same.
    pub fn same(&self, other: &Identity<K>) -> (same: bool)
        ensures
            same == (self@ == other@),
    {
        self.value == other.value
    }
}

impl<K: IdentityKind> Clone for Identity<K> {
    fn clone(&self) -> (copy: Self)
        ensures
            copy@ == self@,
    {
        proof {
            use_type_invariant(self);
        }
        Identity { value: self.value.clone(), marker: PhantomData }
    }
}

/// The initiator's own session.
#[derive(Debug, PartialEq, Eq, Hash)]
pub struct InitiatorSessionIdentityKind;

impl IdentityKind for InitiatorSessionIdentityKind {
    open spec fn field() -> Seq<char> {
        "initiator_session_id"@
    }

    fn field_name() -> (name: &'static str) {
        "initiator_session_id"
    }
}

pub type InitiatorSessionIdentity = Identity<InitiatorSessionIdentityKind>;

/// The agent that initiates a review.
#[derive(Debug, PartialEq, Eq, Hash)]
pub struct InitiatorAgentIdentityKind;

impl IdentityKind for InitiatorAgentIdentityKind {
    open spec fn field() -> Seq<char> {
        "initiator_agent_id"@
    }

    fn field_name() -> (name: &'static str) {
        "initiator_agent_id"
    }
}

pub type InitiatorAgentIdentity = Identity<InitiatorAgentIdentityKind>;

/// The role in which a review is asked for.
#[derive(Debug, PartialEq, Eq, Hash)]
pub struct RoleIdentityKind;

impl IdentityKind for RoleIdentityKind {
    open spec fn field() -> Seq<char> {
        "role_id"@
    }

    fn field_name() -> (name: &'static str) {
        "role_id"
    }
}

pub type RoleIdentity = Identity<RoleIdentityKind>;

/// The task a review belongs to.
#[derive(Debug, PartialEq, Eq, Hash)]
pub struct TaskIdentityKind;

impl IdentityKind for TaskIdentityKind {
    open spec fn field() -> Seq<char> {
        "task_id"@
    }

    fn field_name() -> (name: &'static str) {
        "task_id"
    }
}

pub type TaskIdentity = Identity<TaskIdentityKind>;

/// The subject under review.
#[derive(Debug, PartialEq, Eq, Hash)]
pub struct SubjectIdentityKind;

impl IdentityKind for SubjectIdentityKind {
    open spec fn field() -> Seq<char> {
        "subject_id"@
    }

    fn field_name() -> (name: &'static str) {
        "subject_id"
    }
}

pub type SubjectIdentity = Identity<SubjectIdentityKind>;

} // verus!
