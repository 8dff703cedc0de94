use vstd::prelude::*;

verus! {

/// Why a lifecycle operation did not complete.
#[derive(Clone, Copy, Debug, PartialEq, Eq, Structural)]
pub enum WorkflowError {
    /// One of the two stores holds no row for the task id.
    RecordNotFound,
    /// A store already holds a row for an id that was just allocated.
    DuplicateIdentity,
    /// A store could not be opened, or a statement on it failed.
    StorageUnavailable,
    /// A submitted value is the text that storage reserves for "absent",
    /// or a link carries no readable task id.
    MalformedInput,
    /// Every id up to `i32::MAX` has been handed out.
    IdentityExhausted,
}

/// What the database layer reported when a statement failed, reduced to the
/// three cases the lifecycle rules tell apart.
#[derive(Clone, Copy, Debug, PartialEq, Eq, Structural)]
pub enum Failure {
    /// A query that needs a row found none.
    NoRows,
    /// A constraint of the table, such as its primary key, was violated.
    Constraint,
    /// Anything else.
    Other,
}

impl WorkflowError {
    /// Whether this is an error with which the read or the overwrite of a
    /// row can end: the row is not there, or the store failed.
    pub open spec fn of_row_access(self) -> bool {
        self == WorkflowError::RecordNotFound || self == WorkflowError::StorageUnavailable
    }

    /// Whether this is an error with which the insert of a new row can end:
    /// the id is already there, or the store failed.
    pub open spec fn of_insert(self) -> bool {
        self == WorkflowError::DuplicateIdentity || self == WorkflowError::StorageUnavailable
    }

    /// The HTTP status a front end answers with.
    pub open spec fn spec_status(self) -> int {
        match self {
            WorkflowError::RecordNotFound => 404,
            WorkflowError::MalformedInput => 400,
            WorkflowError::DuplicateIdentity => 500,
            WorkflowError::StorageUnavailable => 500,
            WorkflowError::IdentityExhausted => 500,
        }
    }

    /// The HTTP status a front end answers with: 404 for an unknown task,
    /// 400 for input that was rejected before any write, 500 for the rest.
    pub fn status(&self) -> (code: u16)
        ensures
            code == self.spec_status(),
    {
        match self {
            WorkflowError::RecordNotFound => 404,
            WorkflowError::MalformedInput => 400,
            _ => 500,
        }
    }
}

} // verus!
