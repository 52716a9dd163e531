//! What an HTTP reply to a call means.
use vstd::prelude::*;
use crate::error::RpcError;
use crate::json::{is_json_null, null_value, parse_object, parsed_object, parses_as_object, take_member, value_is_null};

verus! {

/// The server's answer to one call.
#[derive(Debug, PartialEq)]
pub struct Response {
    /// The identifier the server echoed; `null` where the reply has none.
    pub id: serde_json::Value,
    /// The result, where the reply holds one that is not `null`.
    pub result: Option<serde_json::Value>,
    /// The error, where the reply holds one that is not `null`.
    pub error: Option<serde_json::Value>,
}

/// The HTTP status of a successful exchange.
pub const STATUS_OK: u16 = 200;

/// `v`, unless it is absent or `null`.
pub open spec fn non_null(v: Option<serde_json::Value>) -> Option<serde_json::Value> {
    match v {
        Some(x) => if is_json_null(x) {
            None
        } else {
            Some(x)
        },
        None => None,
    }
}

/// The member named `k` of an object, if it has one.
pub open spec fn member(ms: Map<Seq<char>, serde_json::Value>, k: Seq<char>) -> Option<serde_json::Value> {
    if ms.contains_key(k) {
        Some(ms[k])
    } else {
        None
    }
}

/// The response that a reply object with members `ms` stands for: its `id`
/// where it has one, and its `result` and `error` where they are not `null`.
pub open spec fn response_from(ms: Map<Seq<char>, serde_json::Value>, r: Response) -> bool {
    &&& (ms.contains_key(seq!['i', 'd']) ==> r.id == ms[seq!['i', 'd']])
    &&& r.result == non_null(member(ms, seq!['r', 'e', 's', 'u', 'l', 't']))
    &&& r.error == non_null(member(ms, seq!['e', 'r', 'r', 'o', 'r']))
}

/// A member of a reply object that is absent or `null` is no value.
fn present(v: Option<serde_json::Value>) -> (r: Option<serde_json::Value>)
    ensures
        r == non_null(v),
{
    match v {
        Some(x) => {
            if value_is_null(&x) {
                None
            } else {
                Some(x)
            }
        },
        None => None,
    }
}

/// Reads a reply body as a response: a JSON object whose members `id`,
/// `result` and `error` are taken, each of them optional.
pub fn decode_response(body: &[u8]) -> (r: Result<Response, RpcError>)
    ensures
        r is Ok <==> parses_as_object(body@),
        r matches Ok(resp) ==> response_from(parsed_object(body@)->Some_0, resp),
        r matches Err(e) ==> e is Decode,
{
    match parse_object(body) {
        Ok(mut members) => {
            proof {
                reveal_strlit("id");
                reveal_strlit("result");
                reveal_strlit("error");
            }
            assert("id"@ =~= seq!['i', 'd']);
            assert("result"@ =~= seq!['r', 'e', 's', 'u', 'l', 't']);
            assert("error"@ =~= seq!['e', 'r', 'r', 'o', 'r']);
            let id = match take_member(&mut members, "id") {
                Some(v) => v,
                None => null_value(),
            };
            let result = present(take_member(&mut members, "result"));
            let error = present(take_member(&mut members, "error"));
            Ok(Response { id, result, error })
        },
        Err(e) => Err(RpcError::Decode(e)),
    }
}

/// What a reply with HTTP status `status` and body `body` means: on status 200
/// the body read as a response, on any other status an error that carries the
/// status, whatever the body holds.
pub fn interpret_reply(status: u16, body: &[u8]) -> (r: Result<Response, RpcError>)
    ensures
        status != STATUS_OK ==> (r matches Err(RpcError::Status(s)) && s == status),
        status == STATUS_OK ==> (r is Ok <==> parses_as_object(body@)),
        r matches Ok(resp) ==> response_from(parsed_object(body@)->Some_0, resp),
        status == STATUS_OK ==> (r matches Err(e) ==> e is Decode),
{
    if status == STATUS_OK {
        decode_response(body)
    } else {
        Err(RpcError::Status(status))
    }
}

} // verus!
