//! Error taxonomy of the motion core.
//!
//! Transport faults and serialization faults are produced at the edges
//! and carried here as plain text; `BadInput` rejects a malformed or
//! out-of-range command without touching any state; `Unknown` records
//! an internal failure during move execution, which halts the
//! controller until an operator restarts the process.

use vstd::prelude::*;

verus! {

/// What can go wrong while serving the gimbal.
#[derive(Debug)]
pub enum ServerError {
    /// A transport (serial or network) fault, described in plain text.
    IOError(String),
    /// A command payload that could not be (de)serialized.
    SerdeError(String),
    /// A command whose fields are malformed or out of range; the
    /// command is dropped and no state changes.
    BadInput(String),
    /// An internal failure during move execution; fatal to the
    /// controller (fail-stop).
    Unknown(String),
}

impl ServerError {
    /// The human-readable description of the error.
    pub fn message(&self) -> (r: String)
        ensures
            self matches ServerError::IOError(_) ==> r@ == "server io failure"@,
            self matches ServerError::SerdeError(_) ==> r@ == "[de]serialization error"@,
            self matches ServerError::BadInput(s) ==> r@ == "invalid input: "@ + s@,
            self matches ServerError::Unknown(s) ==> r@ == "unknown: "@ + s@,
    {
        match self {
            ServerError::IOError(_) => String::from_str("server io failure"),
            ServerError::SerdeError(_) => String::from_str("[de]serialization error"),
            ServerError::BadInput(s) => String::from_str("invalid input: ").concat(s.as_str()),
            ServerError::Unknown(s) => String::from_str("unknown: ").concat(s.as_str()),
        }
    }
}

} // verus!
