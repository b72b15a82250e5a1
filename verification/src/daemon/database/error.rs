//! Why the store refuses or fails.
use vstd::prelude::*;

verus! {

/// A refused or failed request to the store.
#[derive(Clone, Debug, PartialEq, Eq)]
pub enum DatabaseError {
    /// This process does not hold the writer lock.
    ReadOnly,
    /// A session that was never stored cannot be overwritten.
    MissingId,
    /// A schema migration could not be applied.
    MigrationFailed { description: String, reason: String },
    /// PostgreSQL or the connection to it reported an error.
    Backend { reason: String },
}

/// What a [`DatabaseError`] says.
#[verifier::ext_equal]
pub enum DatabaseErrorView {
    ReadOnly,
    MissingId,
    MigrationFailed { description: Seq<char>, reason: Seq<char> },
    Backend { reason: Seq<char> },
}

impl View for DatabaseError {
    type V = DatabaseErrorView;

    open spec fn view(&self) -> DatabaseErrorView {
        match *self {
            DatabaseError::ReadOnly => DatabaseErrorView::ReadOnly,
            DatabaseError::MissingId => DatabaseErrorView::MissingId,
            DatabaseError::MigrationFailed { description, reason } => {
                DatabaseErrorView::MigrationFailed { description: description@, reason: reason@ }
            },
            DatabaseError::Backend { reason } => DatabaseErrorView::Backend { reason: reason@ },
        }
    }
}

/// The message that reports `error`.
pub open spec fn error_message(error: DatabaseErrorView) -> Seq<char> {
    match error {
        DatabaseErrorView::ReadOnly => "database is read-only; another process owns recording"@,
        DatabaseErrorView::MissingId => "cannot update a session without an id"@,
        DatabaseErrorView::MigrationFailed { description, reason } => {
            "Migration failed: "@ + description + ": "@ + reason
        },
        DatabaseErrorView::Backend { reason } => reason,
    }
}

impl DatabaseError {
    /// The message that reports this error.
    pub fn message(&self) -> (message: String)
        ensures
            message@ == error_message(self@),
    {
        match self {
            DatabaseError::ReadOnly => {
                "database is read-only; another process owns recording".to_owned()
            },
            DatabaseError::MissingId => "cannot update a session without an id".to_owned(),
            DatabaseError::MigrationFailed { description, reason } => {
                "Migration failed: ".to_owned().concat(description.as_str()).concat(": ").concat(
                    reason.as_str(),
                )
            },
            DatabaseError::Backend { reason } => reason.clone(),
        }
    }
}

} // verus!
