use vstd::prelude::*;

verus! {

/// Outcome of a greeting, as reported by the example greeting service.
#[derive(Clone, Copy, Debug, PartialEq, Eq, Structural)]
pub enum Status {
    Success,
    Error,
}

/// The reply of the greeting service.
#[derive(Clone, Debug)]
pub struct GreetResponse {
    pub message: String,
    pub status: Status,
}

/// The example service whose outbound calls are intercepted.
pub struct HelloService;

/// The argument of a greeting.
#[derive(Clone, Debug)]
pub struct GreetRequest {
    pub name: String,
}

} // verus!
