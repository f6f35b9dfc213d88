use vstd::prelude::*;

use crate::wire::json_bytes;

verus! {

/// The reject code that a failure rule answers with.
pub const REJECT_CODE: u8 = 1;

/// What a response rule produces for a matched request.
pub enum MockHttpResult {
    Reply(serde_json::Value),
    Reject { code: u8, message: String },
}

/// The response injected into the environment for one outbound request.
pub enum HttpResponse {
    Reply { status: u16, headers: Vec<(String, String)>, body: Vec<u8> },
    Reject { reject_code: u64, message: String },
}

impl MockHttpResult {
    /// The outcome of a failure rule: a rejection carrying `message`.
    pub fn rejection(message: String) -> (r: MockHttpResult)
        ensures
            r == (MockHttpResult::Reject { code: REJECT_CODE, message }),
    {
        MockHttpResult::Reject { code: REJECT_CODE, message }
    }
}

/// How an outcome is carried to the environment: a reply becomes a success
/// with status 200, no headers and the reply's JSON text as its body; a
/// rejection keeps its code and its message.
pub open spec fn injected(outcome: MockHttpResult, r: HttpResponse) -> bool {
    match outcome {
        MockHttpResult::Reply(_) => match r {
            HttpResponse::Reply { status, headers, body: _ } => status == 200 && headers@.len()
                == 0,
            HttpResponse::Reject { .. } => false,
        },
        MockHttpResult::Reject { code, message } => r == (HttpResponse::Reject {
            reject_code: code as u64,
            message,
        }),
    }
}

/// Translates a rule's outcome into the response the environment expects.
pub fn http_response(outcome: MockHttpResult) -> (r: HttpResponse)
    ensures
        injected(outcome, r),
{
    match outcome {
        MockHttpResult::Reply(value) => {
            let body = json_bytes(&value).unwrap();
            HttpResponse::Reply { status: 200, headers: Vec::new(), body }
        },
        MockHttpResult::Reject { code, message } => HttpResponse::Reject {
            reject_code: code as u64,
            message,
        },
    }
}

/// A failure rule answers every request it matches with a rejection whose
/// message is the one it was registered with.
pub proof fn lemma_failure_rule_message(message: String, r: HttpResponse)
    requires
        injected(MockHttpResult::Reject { code: REJECT_CODE, message }, r),
    ensures
        r matches HttpResponse::Reject { reject_code, message: m } && m == message
            && reject_code == REJECT_CODE as u64,
{
}

} // verus!
