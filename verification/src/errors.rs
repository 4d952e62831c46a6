//! The faults that the store reports.

use vstd::prelude::*;
use vstd::string::StringExecFns;

verus! {

/// Why an operation on the store failed.
#[derive(Debug, Clone, PartialEq, Eq)]
pub enum StorageError {
    /// The backend raised a fault; the text names what was attempted and what went wrong.
    Backend(String),
    /// A stored task, operation, identifier or slot could not be decoded; the text says
    /// which.
    Encoding(String),
    /// The transaction was committed before this call.
    TransactionAlreadyCommitted,
    /// Another transaction holds the database.
    Busy,
    /// Slot 0 of the working set cannot be assigned.
    InvalidIndex,
}

impl StorageError {
    /// The text of the fault, for people.
    pub open spec fn spec_message(self) -> Seq<char> {
        match self {
            StorageError::Backend(detail) => "backend fault: "@ + detail@,
            StorageError::Encoding(detail) => "encoding fault: "@ + detail@,
            StorageError::TransactionAlreadyCommitted => "transaction already committed"@,
            StorageError::Busy => "another transaction is live"@,
            StorageError::InvalidIndex => "slot 0 of the working set is reserved"@,
        }
    }

    /// The text of the fault, for people.
    pub fn message(&self) -> (r: String)
        ensures
            r@ == self.spec_message(),
    {
        match self {
            StorageError::Backend(detail) => {
                String::from_str("backend fault: ").concat(detail.as_str())
            },
            StorageError::Encoding(detail) => {
                String::from_str("encoding fault: ").concat(detail.as_str())
            },
            StorageError::TransactionAlreadyCommitted => {
                String::from_str("transaction already committed")
            },
            StorageError::Busy => String::from_str("another transaction is live"),
            StorageError::InvalidIndex => String::from_str("slot 0 of the working set is reserved"),
        }
    }
}

} // verus!
