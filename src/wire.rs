use vstd::prelude::*;

use crate::error::MockError;

verus! {

#[verifier::external_type_specification]
#[verifier::external_body]
pub struct ExValue(serde_json::Value);

#[verifier::external_type_specification]
#[verifier::external_body]
pub struct ExJsonError(serde_json::Error);

/// Whether a byte string is JSON text.
pub uninterp spec fn json_parses(b: Seq<u8>) -> bool;

/// The text of the member `key` of the JSON object in `b`; none when `b` is
/// not an object, has no such member, or the member is not a string.
pub uninterp spec fn str_member_of(b: Seq<u8>, key: Seq<char>) -> Option<Seq<char>>;

/// Relies on serde_json::from_slice, serde_json::Value::get and
/// serde_json::Value::as_str: reads bytes as a JSON value, failing exactly
/// when they are not JSON text, and picks out the text of one member.
#[verifier::external_body]
fn parse_with_member(body: &[u8], key: &str) -> (r: Result<
    (serde_json::Value, Option<String>),
    serde_json::Error,
>)
    ensures
        r is Ok <==> json_parses(body@),
        r matches Ok((_, m)) ==> match m {
            Some(t) => str_member_of(body@, key@) == Some(t@),
            None => str_member_of(body@, key@) is None,
        },
{
    serde_json::from_slice::<serde_json::Value>(body).map(|v| {
        let m = v.get(key).and_then(serde_json::Value::as_str).map(|t| t.to_string());
        (v, m)
    })
}

/// Relies on serde_json::to_vec: the JSON text of a value. On a `Value` it
/// cannot fail: map keys are strings and writing into a `Vec` has no error.
#[verifier::external_body]
pub(crate) fn json_bytes(v: &serde_json::Value) -> (r: Result<Vec<u8>, serde_json::Error>)
    ensures
        r is Ok,
{
    serde_json::to_vec(v)
}

/// An outbound request as the harness sees it: the body of a stub call,
/// `{method, args}`, and the method it names.
pub struct OutboundRequest {
    pub method: String,
    pub payload: serde_json::Value,
}

/// The method named by a request body: the text of its `method` member, or
/// the empty method when there is none.
pub open spec fn method_named(b: Seq<u8>) -> Seq<char> {
    match str_member_of(b, "method"@) {
        Some(t) => t,
        None => Seq::empty(),
    }
}

/// Reads the body of an outbound request. A body that is not JSON is
/// refused; a body without a textual `method` member names the empty method.
pub fn read_request(body: &Vec<u8>) -> (r: Result<OutboundRequest, MockError>)
    ensures
        r is Ok <==> json_parses(body@),
        r is Err ==> r == Err::<OutboundRequest, MockError>(MockError::InvalidBody),
        r matches Ok(q) ==> q.method@ == method_named(body@),
{
    let key = "method";
    match parse_with_member(body.as_slice(), key) {
        Err(_) => Err(MockError::InvalidBody),
        Ok((payload, m)) => {
            let method = match m {
                Some(t) => t,
                None => String::new(),
            };
            Ok(OutboundRequest { method, payload })
        },
    }
}

} // verus!
