use vstd::prelude::*;

verus! {

/// Every way an execution of the harness can fail.
#[derive(Debug)]
pub enum MockError {
    /// Execution was attempted before a call was registered.
    MissingCall,
    /// A rule was registered for a method that already has a pending rule of that kind.
    DuplicateRule { method: String },
    /// An assertion rule rejected the request it observed.
    AssertionFailed { method: String, detail: String },
    /// Rules were left unmatched when the driver stopped.
    Unmet { methods: Vec<String> },
    /// The environment itself rejected or failed the call.
    Environment { message: String },
    /// The call answered with the error case of the canonical result shape.
    Rejected { message: String },
    /// The final bytes decode neither as the canonical result shape nor as the value.
    Decode { detail: String, exhausted: bool, unmatched: Vec<String> },
    /// An outbound request carried a body that is not JSON.
    InvalidBody,
}

} // verus!
