//! The JSON-RPC message types of the `jsonrpc` and `serde_json` crates, as the
//! library sees them, and the few calls into those crates that the client makes.
//!
//! These values are opaque to the proofs: a JSON value, a request or a response
//! is carried through the library's logic, and what the logic reads of it is
//! obtained by one of the calls below.

use vstd::prelude::*;
use jsonrpc::{Request, Response};
use serde_json::value::RawValue;
use serde_json::Value;
use jsonrpc::Error as RpcClientError;
use serde_json::Error as JsonCodecError;

verus! {

/// A `serde_json` JSON value (request parameters and message ids).
#[verifier::external_type_specification]
#[verifier::external_body]
pub struct ExValue(Value);

/// A serialized JSON fragment (the parameters of a request).
#[verifier::external_type_specification]
#[verifier::external_body]
pub struct ExRawValue(RawValue);

/// A JSON-RPC request of the `jsonrpc` crate.
#[verifier::external_type_specification]
#[verifier::external_body]
pub struct ExRequest<'a>(Request<'a>);

/// A JSON-RPC response of the `jsonrpc` crate.
#[verifier::external_type_specification]
#[verifier::external_body]
pub struct ExResponse(Response);

/// The error type of the `jsonrpc` crate.
#[verifier::external_type_specification]
#[verifier::external_body]
pub struct ExJsonRpcError(RpcClientError);

/// The error type of the `serde_json` crate.
#[verifier::external_type_specification]
#[verifier::external_body]
pub struct ExSerdeJsonError(JsonCodecError);

/// The protocol failures that the client reports through `jsonrpc::Error`,
/// with the offending message id where the failure names one.
pub enum JsonRpcFault {
    /// Response to a request did not have the expected id.
    NonceMismatch,
    /// Response had a `jsonrpc` field other than "2.0".
    VersionMismatch,
    /// Batches can't be empty.
    EmptyBatch,
    /// The batch response holds another number of responses than were requested.
    WrongBatchResponseSize,
    /// The batch response holds this id twice.
    BatchDuplicateResponseId(Value),
    /// The batch response holds an id that is not an unsigned integer.
    WrongBatchResponseId(Value),
}

/// What a JSON value reads as through `serde_json::Value::as_u64`.
pub uninterp spec fn json_u64(v: Value) -> Option<u64>;

/// Whether two JSON values are equal (`<serde_json::Value as PartialEq>::eq`).
pub uninterp spec fn json_eq(a: Value, b: Value) -> bool;

/// The JSON text of a serialized fragment (`RawValue::get`).
pub uninterp spec fn raw_text(r: &RawValue) -> Seq<char>;

/// What `serde_json::value::to_raw_value` makes of a list of parameters: the
/// text of the JSON array, or `None` where serializing fails.
pub uninterp spec fn params_text(params: Seq<Value>) -> Option<Seq<char>>;

/// The `method` field of a request.
pub uninterp spec fn request_method_of(r: Request) -> Seq<char>;

/// The text of the `params` field of a request, where it has one.
pub uninterp spec fn request_params_of(r: Request) -> Option<Seq<char>>;

/// The `id` field of a request.
pub uninterp spec fn request_id_of(r: Request) -> Value;

/// The `jsonrpc` field of a request.
pub uninterp spec fn request_jsonrpc_of(r: Request) -> Option<Seq<char>>;

/// The `id` field of a response.
pub uninterp spec fn response_id_of(r: Response) -> Value;

/// The `jsonrpc` field of a response.
pub uninterp spec fn response_jsonrpc_of(r: Response) -> Option<Seq<char>>;

/// The `jsonrpc::Error` variant of the same name as a fault.
pub uninterp spec fn jsonrpc_error_of(fault: JsonRpcFault) -> jsonrpc::Error;

/// The error object of a response, as `jsonrpc::Error::Rpc`, where it has one.
pub uninterp spec fn response_rpc_error_of(r: Response) -> Option<jsonrpc::Error>;

/// `jsonrpc::Error::Transport` holding the given error.
pub uninterp spec fn transport_error_of(e: jsonrpc::Error) -> jsonrpc::Error;

/// The text of a string, where there is one.
pub open spec fn text_of(o: Option<String>) -> Option<Seq<char>> {
    match o {
        Some(s) => Some(s@),
        None => None,
    }
}

/// The text of a serialized fragment, where there is one.
pub open spec fn opt_raw_text(o: Option<&RawValue>) -> Option<Seq<char>> {
    match o {
        Some(r) => Some(raw_text(r)),
        None => None,
    }
}

/// The text of a boxed serialized fragment, where there is one.
pub open spec fn boxed_raw_text(o: Option<Box<RawValue>>) -> Option<Seq<char>> {
    match o {
        Some(b) => Some(raw_text(&*b)),
        None => None,
    }
}

/// Converts a fault into the variant of `jsonrpc::Error` of the same name,
/// one for one.
#[verifier::external_body]
pub(crate) fn into_jsonrpc_error(fault: JsonRpcFault) -> (e: jsonrpc::Error)
    ensures
        e == jsonrpc_error_of(fault),
{
    match fault {
        JsonRpcFault::NonceMismatch => jsonrpc::Error::NonceMismatch,
        JsonRpcFault::VersionMismatch => jsonrpc::Error::VersionMismatch,
        JsonRpcFault::EmptyBatch => jsonrpc::Error::EmptyBatch,
        JsonRpcFault::WrongBatchResponseSize => jsonrpc::Error::WrongBatchResponseSize,
        JsonRpcFault::BatchDuplicateResponseId(v) => jsonrpc::Error::BatchDuplicateResponseId(v),
        JsonRpcFault::WrongBatchResponseId(v) => jsonrpc::Error::WrongBatchResponseId(v),
    }
}

/// `jsonrpc::Error::Transport(Box::new(e))`: a transport's error, boxed.
#[verifier::external_body]
pub(crate) fn into_transport_error(e: jsonrpc::Error) -> (r: jsonrpc::Error)
    ensures
        r == transport_error_of(e),
{
    jsonrpc::Error::Transport(e.into())
}

/// `serde_json::Value::from(usize)`: the JSON number `n`, which is how the
/// client writes a request id; it reads back as `n` through `as_u64`.
#[verifier::external_body]
pub(crate) fn value_from_usize(n: usize) -> (v: Value)
    ensures
        json_u64(v) == Some(n as u64),
{
    Value::from(n)
}

/// `serde_json::Value::as_u64`: the value as an unsigned integer, if it is a
/// JSON number that is a non-negative integer.
#[verifier::external_body]
pub(crate) fn value_as_u64(v: &Value) -> (r: Option<u64>)
    ensures
        r == json_u64(*v),
{
    v.as_u64()
}

/// `<serde_json::Value as PartialEq>::eq`. Equal values read the same through
/// `as_u64`.
#[verifier::external_body]
pub(crate) fn values_equal(a: &Value, b: &Value) -> (r: bool)
    ensures
        r == json_eq(*a, *b),
        r ==> json_u64(*a) == json_u64(*b),
{
    a == b
}

/// `<serde_json::Value as Clone>::clone`.
#[verifier::external_body]
pub(crate) fn clone_value(v: &Value) -> (r: Value)
    ensures
        r == *v,
{
    v.clone()
}

/// `serde_json::value::to_raw_value`: the parameters serialized as one JSON
/// array.
#[verifier::external_body]
pub(crate) fn params_to_raw(params: &[Value]) -> (r: Result<Box<RawValue>, serde_json::Error>)
    ensures
        match r {
            Ok(b) => params_text(params@) == Some(raw_text(&*b)),
            Err(_) => params_text(params@) is None,
        },
{
    serde_json::value::to_raw_value(params)
}

/// `Option::as_deref` on boxed parameters.
#[verifier::external_body]
pub(crate) fn raw_params_ref(raw: &Option<Box<RawValue>>) -> (r: Option<&RawValue>)
    ensures
        opt_raw_text(r) == boxed_raw_text(*raw),
{
    raw.as_deref()
}

/// Builds a `jsonrpc::Request` from its four fields.
#[verifier::external_body]
pub(crate) fn new_request<'a>(
    method: &'a str,
    params: Option<&'a RawValue>,
    id: Value,
    jsonrpc: &'a str,
) -> (r: Request<'a>)
    ensures
        request_method_of(r) == method@,
        request_params_of(r) == opt_raw_text(params),
        request_id_of(r) == id,
        request_jsonrpc_of(r) == Some(jsonrpc@),
{
    Request { method, params, id, jsonrpc: Some(jsonrpc) }
}

/// The `id` field of a `jsonrpc::Request`.
#[verifier::external_body]
pub(crate) fn request_id<'b, 'a>(request: &'b Request<'a>) -> (r: &'b Value)
    ensures
        *r == request_id_of(*request),
{
    &request.id
}

/// The `id` field of a `jsonrpc::Response`.
#[verifier::external_body]
pub(crate) fn response_id(response: &Response) -> (r: &Value)
    ensures
        *r == response_id_of(*response),
{
    &response.id
}

/// A copy of the `jsonrpc` field of a `jsonrpc::Response`.
#[verifier::external_body]
pub(crate) fn response_version(response: &Response) -> (r: Option<String>)
    ensures
        text_of(r) == response_jsonrpc_of(*response),
{
    response.jsonrpc.clone()
}

/// A copy of the `error` field of a `jsonrpc::Response`, as
/// `jsonrpc::Error::Rpc` (what `Response::result` returns for it).
#[verifier::external_body]
pub(crate) fn response_rpc_error(response: &Response) -> (r: Option<jsonrpc::Error>)
    ensures
        r == response_rpc_error_of(*response),
{
    response.error.clone().map(jsonrpc::Error::Rpc)
}

} // verus!
