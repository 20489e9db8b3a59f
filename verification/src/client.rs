//! [`Client`]

use vstd::prelude::*;
use std::collections::BTreeMap;
use jsonrpc::{Request, Response};
use serde_json::value::RawValue;
use serde_json::Value;

use crate::batch::Batch;
use crate::error::Error;
use crate::json::{
    boxed_raw_text, clone_value, into_jsonrpc_error, into_transport_error, json_eq, json_u64,
    jsonrpc_error_of, new_request, opt_raw_text, params_text, params_to_raw, raw_params_ref,
    request_id, request_id_of, request_jsonrpc_of, request_method_of, request_params_of,
    response_id, response_id_of, response_jsonrpc_of, response_rpc_error, response_rpc_error_of,
    response_version, transport_error_of,
    value_as_u64, value_from_usize, values_equal, JsonRpcFault,
};
use crate::plan::{
    batch_complete, first_rejected, is_permutation, lemma_reorder_pairs_each_request,
    lemma_reorder_succeeds_iff, metas_view, reorder_plan,
    reorder_spec, response_fault, response_fault_spec, Fault, MetaView, ResponseMeta,
};

verus! {

/// JSONRPC protocol version.
const JSONRPC: &'static str = "2.0";

/// The id after `id`: request ids count up by one and wrap around at the end
/// of `usize`.
pub open spec fn id_after(id: usize) -> usize {
    if id == usize::MAX {
        0
    } else {
        (id + 1) as usize
    }
}

/// The id after `n` requests numbered from `id`.
pub open spec fn id_after_n(id: usize, n: nat) -> usize
    decreases n,
{
    if n == 0 {
        id
    } else {
        id_after(id_after_n(id, (n - 1) as nat))
    }
}

/// After `n` requests the id has moved `n` places on, modulo the size of `usize`.
pub proof fn lemma_id_after_n_is_sum(id: usize, n: nat)
    ensures
        id_after_n(id, n) as int == (id + n) % (usize::MAX as int + 1),
    decreases n,
{
    let m = usize::MAX as int + 1;
    if n == 0 {
        vstd::arithmetic::div_mod::lemma_small_mod(id as nat, m as nat);
    } else {
        lemma_id_after_n_is_sum(id, (n - 1) as nat);
        let prev = id_after_n(id, (n - 1) as nat) as int;
        vstd::arithmetic::div_mod::lemma_add_mod_noop(id + n - 1, 1, m);
        vstd::arithmetic::div_mod::lemma_small_mod(1, m as nat);
        if prev == usize::MAX {
            vstd::arithmetic::div_mod::lemma_mod_self_0(m);
        } else {
            vstd::arithmetic::div_mod::lemma_small_mod((prev + 1) as nat, m as nat);
        }
    }
}

/// The requests that a client forms one after another carry distinct ids, as
/// long as there are no more of them than `usize` has values: the ids of a
/// batch are unique.
pub proof fn lemma_ids_distinct(id: usize, a: nat, b: nat)
    requires
        a < b,
        b - a <= usize::MAX,
    ensures
        id_after_n(id, a) != id_after_n(id, b),
{
    let m = usize::MAX as int + 1;
    lemma_id_after_n_is_sum(id, a);
    lemma_id_after_n_is_sum(id, b);
    if id_after_n(id, a) == id_after_n(id, b) {
        vstd::arithmetic::div_mod::lemma_small_mod((b - a) as nat, m as nat);
        assert((b - a) % m == 0) by {
            vstd::arithmetic::div_mod::lemma_mod_equivalence(id + b, id + a, m);
        }
    }
}

/// `req` is the request that the client forms for `method` with the serialized
/// parameters `params` and the id `id`: the JSON number `id`, and the
/// `jsonrpc` field "2.0".
pub open spec fn request_formed(req: Request, method: Seq<char>, params: Option<Seq<char>>, id: usize) -> bool {
    &&& request_method_of(req) == method
    &&& request_params_of(req) == params
    &&& json_u64(request_id_of(req)) == Some(id as u64)
    &&& request_jsonrpc_of(req) == Some("2.0"@)
}

/// What the parameters of a request serialize to: `Some(None)` where there are
/// none, `Some(Some(text))` for the JSON array, `None` where serializing fails.
pub open spec fn params_spec(params: Seq<Value>) -> Option<Option<Seq<char>>> {
    if params.len() == 0 {
        Some(None)
    } else {
        match params_text(params) {
            Some(t) => Some(Some(t)),
            None => None,
        }
    }
}

/// Parameters are left out exactly where there are none; any others are sent
/// as the JSON array of all of them, and fail to serialize exactly where that
/// array does.
pub proof fn lemma_params_spec(params: Seq<Value>)
    ensures
        params_spec(params) == Some(None::<Seq<char>>) <==> params.len() == 0,
        params.len() > 0 ==> (params_spec(params) is Some <==> params_text(params) is Some),
        params.len() > 0 && params_spec(params) is Some ==> params_spec(params)->0 == params_text(params),
{
}

/// Every call of the batch has parameters that serialize.
pub open spec fn batch_serializes(batch: Seq<(Seq<char>, Seq<Value>)>) -> bool {
    forall|i: int| 0 <= i < batch.len() ==> (#[trigger] params_spec(batch[i].1)) is Some
}

/// The fault as reported through `jsonrpc::Error`, with the id of the response
/// it names.
pub open spec fn fault_report(fault: Fault, resps: Seq<Response>) -> JsonRpcFault {
    match fault {
        Fault::WrongBatchResponseSize => JsonRpcFault::WrongBatchResponseSize,
        Fault::VersionMismatch => JsonRpcFault::VersionMismatch,
        Fault::WrongBatchResponseId(k) => JsonRpcFault::WrongBatchResponseId(
            response_id_of(resps[k as int]),
        ),
        Fault::BatchDuplicateResponseId(k) => JsonRpcFault::BatchDuplicateResponseId(
            response_id_of(resps[k as int]),
        ),
        Fault::NonceMismatch => JsonRpcFault::NonceMismatch,
    }
}

/// The error of the library that reports a fault.
pub open spec fn fault_error_spec(fault: Fault, resps: Seq<Response>) -> Error {
    Error::JsonRpc(jsonrpc_error_of(fault_report(fault, resps)))
}

/// Whether the ids of request `i` and response `i` are equal, for each `i`.
pub open spec fn positional_of(reqs: Seq<Request>, resps: Seq<Response>) -> Seq<bool> {
    Seq::new(reqs.len(), |i: int| json_eq(request_id_of(reqs[i]), response_id_of(resps[i])))
}

/// The integer ids of the requests.
pub open spec fn request_ids_of(reqs: Seq<Request>) -> Seq<Option<u64>> {
    Seq::new(reqs.len(), |i: int| json_u64(request_id_of(reqs[i])))
}

/// What the client reads of each response: its `jsonrpc` field and integer id.
pub open spec fn metas_of(resps: Seq<Response>) -> Seq<MetaView> {
    Seq::new(
        resps.len(),
        |j: int| MetaView { jsonrpc: response_jsonrpc_of(resps[j]), id: json_u64(response_id_of(resps[j])) },
    )
}

/// The result of reordering `resps` for `reqs`: the responses in the order
/// that [`reorder_spec`] finds on what is read of the messages, or the error
/// that reports its fault.
pub open spec fn reorder_result(reqs: Seq<Request>, resps: Seq<Response>) -> Result<Seq<Response>, Error> {
    match reorder_spec(positional_of(reqs, resps), request_ids_of(reqs), metas_of(resps)) {
        Ok(order) => Ok(Seq::new(order.len(), |i: int| resps[order[i] as int])),
        Err(fault) => Err(fault_error_spec(fault, resps)),
    }
}

/// A result holding a vector, with the vector seen as a sequence.
pub open spec fn seq_result(r: Result<Vec<Response>, Error>) -> Result<Seq<Response>, Error> {
    match r {
        Ok(v) => Ok(v@),
        Err(e) => Err(e),
    }
}

/// The result of checking the response to a single request whose id is
/// `expected`: the `jsonrpc` field first, then the id, then whether the
/// response carries an error object.
pub open spec fn check_response_spec(expected: Value, response: Response) -> Result<Response, Error> {
    match response_fault_spec(
        response_jsonrpc_of(response),
        json_eq(response_id_of(response), expected),
    ) {
        None => match response_rpc_error_of(response) {
            None => Ok(response),
            Some(e) => Err(Error::JsonRpc(e)),
        },
        Some(fault) => Err(fault_error_spec(fault, Seq::empty())),
    }
}

/// The response to a single request is checked in a fixed order: a `jsonrpc`
/// field other than "2.0" is a version mismatch whatever the id; then an id
/// other than the request's is a nonce mismatch; then an error object is the
/// node's error; and only a response that passes all three is returned, as it
/// came.
pub proof fn lemma_single_response_checks(expected: Value, response: Response)
    ensures
        response_jsonrpc_of(response) != Some("2.0"@) ==> check_response_spec(expected, response)
            == Err::<Response, Error>(Error::JsonRpc(jsonrpc_error_of(JsonRpcFault::VersionMismatch))),
        response_jsonrpc_of(response) == Some("2.0"@) && !json_eq(response_id_of(response), expected)
            ==> check_response_spec(expected, response) == Err::<Response, Error>(
            Error::JsonRpc(jsonrpc_error_of(JsonRpcFault::NonceMismatch)),
        ),
        response_jsonrpc_of(response) == Some("2.0"@) && json_eq(response_id_of(response), expected)
            ==> check_response_spec(expected, response) == match response_rpc_error_of(response) {
            None => Ok::<Response, Error>(response),
            Some(e) => Err(Error::JsonRpc(e)),
        },
        check_response_spec(expected, response) is Ok <==> response_jsonrpc_of(response) == Some("2.0"@)
            && json_eq(response_id_of(response), expected) && response_rpc_error_of(response) is None,
        check_response_spec(expected, response) matches Ok(r) ==> r == response,
{
}

/// What `send` returns: a transport's error, wrapped as a transport error, or
/// the response checked against the id of the request that was sent.
pub proof fn lemma_send_outcome(req: Request, res: Result<Response, jsonrpc::Error>)
    ensures
        res matches Err(e) ==> send_outcome(req, res) == Err::<Response, Error>(
            Error::JsonRpc(transport_error_of(e)),
        ),
        res matches Ok(response) ==> send_outcome(req, res) == check_response_spec(
            request_id_of(req),
            response,
        ),
{
}

/// What `send` returns for the request `req` and what the transport gave back.
pub open spec fn send_outcome(req: Request, res: Result<Response, jsonrpc::Error>) -> Result<Response, Error> {
    match res {
        Ok(response) => check_response_spec(request_id_of(req), response),
        Err(e) => Err(Error::JsonRpc(transport_error_of(e))),
    }
}

/// What `send_batch` returns: a transport's error, wrapped as a transport
/// error, or the transport's responses reordered for the requests that were
/// sent; a response's error object is left for its caller to read.
pub proof fn lemma_batch_outcome(reqs: Seq<Request>, res: Result<Vec<Response>, jsonrpc::Error>)
    ensures
        res matches Err(e) ==> batch_outcome(reqs, res) == Err::<Seq<Response>, Error>(
            Error::JsonRpc(transport_error_of(e)),
        ),
        res matches Ok(resps) ==> batch_outcome(reqs, res) == reorder_result(reqs, resps@),
{
}

/// What `send_batch` returns for the requests `reqs` and what the transport
/// gave back.
pub open spec fn batch_outcome(reqs: Seq<Request>, res: Result<Vec<Response>, jsonrpc::Error>) -> Result<Seq<Response>, Error> {
    match res {
        Ok(resps) => reorder_result(reqs, resps@),
        Err(e) => Err(Error::JsonRpc(transport_error_of(e))),
    }
}

/// Client
#[derive(Debug)]
pub struct Client {
    /// Unique ID of the next request; increments for each new request.
    id: usize,
}

impl Default for Client {
    fn default() -> (c: Self)
        ensures
            c.next_id() == 0,
    {
        Self::new()
    }
}

impl Client {
    /// The id that the next request will carry.
    pub closed spec fn next_id(&self) -> usize {
        self.id
    }

    /// New.
    pub fn new() -> (c: Self)
        ensures
            c.next_id() == 0,
    {
        Self { id: 0 }
    }

    /// Forms the [`Request`] and increments the internal request id.
    ///
    /// The request carries the method, the parameters, the id
    /// `self.next_id()` and the `jsonrpc` field "2.0".
    pub fn request<'a>(&mut self, method: &'a str, params: Option<&'a RawValue>) -> (r: Request<'a>)
        ensures
            request_formed(r, method@, opt_raw_text(params), old(self).next_id()),
            final(self).next_id() == id_after(old(self).next_id()),
    {
        let id = self.id;
        self.id = if id == usize::MAX {
            0
        } else {
            id + 1
        };
        new_request(method, params, value_from_usize(id), JSONRPC)
    }

    /// Execute the RPC.
    ///
    /// `send_fn` delivers a request and returns the node's response. The
    /// response is returned if it conforms to JSON-RPC 2.0, carries the id of
    /// the request and holds no error object (see [`check_response`]); reading
    /// its result is left to the caller. An error of `send_fn` is returned as a
    /// transport error.
    pub fn send(
        &mut self,
        method: &str,
        params: &[Value],
        send_fn: impl Fn(Request) -> Result<Response, jsonrpc::Error>,
    ) -> (r: Result<Response, Error>)
        requires
            forall|req: Request| call_requires(send_fn, (req,)),
        ensures
            match params_spec(params@) {
                None => final(self).next_id() == old(self).next_id() && r matches Err(
                    Error::SerdeJson(_),
                ),
                Some(text) => {
                    &&& final(self).next_id() == id_after(old(self).next_id())
                    &&& exists|req: Request, res: Result<Response, jsonrpc::Error>|
                        {
                            &&& #[trigger] call_ensures(send_fn, (req,), res)
                            &&& request_formed(req, method@, text, old(self).next_id())
                            &&& r == send_outcome(req, res)
                            &&& res matches Err(e) ==> r == Err::<Response, Error>(
                                Error::JsonRpc(transport_error_of(e)),
                            )
                            &&& res matches Ok(response) ==> r == check_response_spec(
                                request_id_of(req),
                                response,
                            )
                        }
                },
            },
    {
        let raw_value = params_json(params)?;
        let request = self.request(method, raw_params_ref(&raw_value));
        let ghost req = request;
        let expected_id = clone_value(request_id(&request));
        let res = send_fn(request);
        let r = match res {
            Ok(response) => check_response(&expected_id, response),
            Err(e) => Err(Error::JsonRpc(into_transport_error(e))),
        };
        assert(r == send_outcome(req, res));
        r
    }

    /// Forms the requests of a batch, numbered from `self.next_id()`, with the
    /// parameters `raw` that [`batch_params_json`] made of it.
    pub fn batch_requests<'a>(
        &mut self,
        batch: &'a Batch,
        raw: &'a Vec<Option<Box<RawValue>>>,
    ) -> (r: Vec<Request<'a>>)
        requires
            raw@.len() == batch@.len(),
        ensures
            r@.len() == batch@.len(),
            forall|i: int|
                0 <= i < r@.len() ==> request_formed(
                    #[trigger] r@[i],
                    batch@[i].0,
                    boxed_raw_text(raw@[i]),
                    id_after_n(old(self).next_id(), i as nat),
                ),
            final(self).next_id() == id_after_n(old(self).next_id(), batch@.len()),
    {
        let calls = batch.calls();
        let n = calls.len();
        let mut requests: Vec<Request<'a>> = Vec::new();
        for i in 0..n
            invariant
                n == calls@.len(),
                n == raw@.len(),
                n == batch@.len(),
                forall|h: int| 0 <= h < n ==> (#[trigger] calls@[h]).0@ == batch@[h].0,
                requests@.len() == i,
                forall|h: int|
                    0 <= h < i ==> request_formed(
                        #[trigger] requests@[h],
                        batch@[h].0,
                        boxed_raw_text(raw@[h]),
                        id_after_n(old(self).next_id(), h as nat),
                    ),
                self.next_id() == id_after_n(old(self).next_id(), i as nat),
        {
            assert(calls@[i as int].0@ == batch@[i as int].0);
            let request = self.request(calls[i].0, raw_params_ref(&raw[i]));
            requests.push(request);
        }
        requests
    }

    /// Execute a [`Batch`] of RPCs.
    ///
    /// `send_fn` delivers the requests and returns the node's responses. The
    /// responses are returned in the order of the requests (see [`reorder`]).
    /// An error of `send_fn` is returned as a transport error.
    pub fn send_batch(
        &mut self,
        batch: &Batch,
        send_fn: impl Fn(&[Request]) -> Result<Vec<Response>, jsonrpc::Error>,
    ) -> (r: Result<Vec<Response>, Error>)
        requires
            forall|reqs: &[Request]| call_requires(send_fn, (reqs,)),
        ensures
            !batch_serializes(batch@) ==> final(self).next_id() == old(self).next_id()
                && r matches Err(Error::SerdeJson(_)),
            batch_serializes(batch@) ==> {
                &&& final(self).next_id() == id_after_n(old(self).next_id(), batch@.len())
                &&& exists|reqs: &[Request], res: Result<Vec<Response>, jsonrpc::Error>|
                    {
                        &&& #[trigger] call_ensures(send_fn, (reqs,), res)
                        &&& reqs@.len() == batch@.len()
                        &&& forall|i: int|
                            0 <= i < reqs@.len() ==> request_formed(
                                #[trigger] reqs@[i],
                                batch@[i].0,
                                params_spec(batch@[i].1)->0,
                                id_after_n(old(self).next_id(), i as nat),
                            )
                        &&& seq_result(r) == batch_outcome(reqs@, res)
                        &&& res matches Err(e) ==> r == Err::<Vec<Response>, Error>(
                            Error::JsonRpc(transport_error_of(e)),
                        )
                        &&& res matches Ok(resps) ==> seq_result(r) == reorder_result(reqs@, resps@)
                        &&& res matches Ok(resps) ==> (r is Ok <==> resps@.len() == batch@.len() && ((
                        forall|i: int|
                            0 <= i < reqs@.len() ==> #[trigger] json_eq(
                                request_id_of(reqs@[i]),
                                response_id_of(resps@[i]),
                            )) || batch_complete(request_ids_of(reqs@), metas_of(resps@))))
                        &&& res matches Ok(resps) ==> (resps@.len() == batch@.len() && (forall|i: int|
                            0 <= i < reqs@.len() ==> #[trigger] json_eq(
                                request_id_of(reqs@[i]),
                                response_id_of(resps@[i]),
                            )) ==> seq_result(r) == Ok::<Seq<Response>, Error>(resps@))
                    }
            },
            r matches Ok(out) ==> out@.len() == batch@.len() && forall|i: int|
                0 <= i < out@.len() ==> json_u64(response_id_of(#[trigger] out@[i])) == Some(
                    id_after_n(old(self).next_id(), i as nat) as u64,
                ),
    {
        // Create raw params
        let raw_values = batch_params_json(batch)?;
        // Create requests
        let requests = self.batch_requests(batch, &raw_values);
        proof {
            assert forall|i: int| 0 <= i < requests@.len() implies request_formed(
                #[trigger] requests@[i],
                batch@[i].0,
                params_spec(batch@[i].1)->0,
                id_after_n(old(self).next_id(), i as nat),
            ) by {
                assert(Some(boxed_raw_text(raw_values@[i])) == params_spec(batch@[i].1));
            }
        }
        // Send batch
        let res = send_fn(requests.as_slice());
        let r = match res {
            Ok(responses) => reorder(requests.as_slice(), responses),
            Err(e) => Err(Error::JsonRpc(into_transport_error(e))),
        };
        assert(seq_result(r) == batch_outcome(requests@, res));
        proof {
            if let Ok(ref out) = r {
                assert forall|i: int| 0 <= i < out@.len() implies json_u64(
                    response_id_of(#[trigger] out@[i]),
                ) == Some(id_after_n(old(self).next_id(), i as nat) as u64) by {
                    assert(request_formed(
                        requests@[i],
                        batch@[i].0,
                        params_spec(batch@[i].1)->0,
                        id_after_n(old(self).next_id(), i as nat),
                    ));
                }
            }
        }
        r
    }
}

/// The parameters of a request, serialized: none where `params` is empty.
pub fn params_json(params: &[Value]) -> (r: Result<Option<Box<RawValue>>, Error>)
    ensures
        params@.len() == 0 ==> r matches Ok(None),
        params@.len() > 0 ==> (r is Ok <==> params_text(params@) is Some),
        params@.len() > 0 && r is Ok ==> boxed_raw_text(r->Ok_0) == params_text(params@),
        match params_spec(params@) {
            None => r matches Err(Error::SerdeJson(_)),
            Some(text) => match r {
                Ok(raw) => boxed_raw_text(raw) == text,
                Err(_) => false,
            },
        },
{
    if params.len() == 0 {
        Ok(None)
    } else {
        match params_to_raw(params) {
            Ok(raw) => Ok(Some(raw)),
            Err(e) => Err(Error::SerdeJson(e)),
        }
    }
}

/// The parameters of each call of a batch, serialized, in order: none where a
/// call has no parameters.
pub fn batch_params_json(batch: &Batch) -> (r: Result<Vec<Option<Box<RawValue>>>, Error>)
    ensures
        r is Ok <==> batch_serializes(batch@),
        r matches Ok(v) ==> v@.len() == batch@.len() && forall|i: int|
            0 <= i < v@.len() ==> Some(boxed_raw_text(#[trigger] v@[i])) == params_spec(
                batch@[i].1,
            ),
        r is Err ==> r matches Err(Error::SerdeJson(_)),
        r matches Ok(v) ==> forall|i: int|
            0 <= i < v@.len() ==> ((#[trigger] v@[i] is None <==> batch@[i].1.len() == 0) && (
            batch@[i].1.len() > 0 ==> boxed_raw_text(v@[i]) == params_text(batch@[i].1))),
{
    let calls = batch.calls();
    let n = calls.len();
    let mut raw: Vec<Option<Box<RawValue>>> = Vec::new();
    for i in 0..n
        invariant
            n == calls@.len(),
            n == batch@.len(),
            forall|h: int|
                0 <= h < n ==> (#[trigger] calls@[h]).0@ == batch@[h].0 && calls@[h].1@
                    == batch@[h].1,
            raw@.len() == i,
            forall|h: int|
                0 <= h < i ==> Some(boxed_raw_text(#[trigger] raw@[h])) == params_spec(batch@[h].1),
    {
        assert(calls@[i as int].1@ == batch@[i as int].1);
        let params = match params_json(calls[i].1) {
            Ok(p) => p,
            Err(e) => {
                assert(!batch_serializes(batch@)) by {
                    assert(params_spec(batch@[i as int].1) is None);
                }
                return Err(e);
            },
        };
        raw.push(params);
    }
    assert(batch_serializes(batch@)) by {
        assert forall|i: int| 0 <= i < batch@.len() implies (#[trigger] params_spec(
            batch@[i].1,
        )) is Some by {
            assert(Some(boxed_raw_text(raw@[i])) == params_spec(batch@[i].1));
        }
    }
    Ok(raw)
}

/// The error that reports a fault, with the offending response's id where the
/// fault names one.
fn fault_error(fault: Fault, responses: &Vec<Response>) -> (e: Error)
    requires
        fault matches Fault::WrongBatchResponseId(k) ==> k < responses@.len(),
        fault matches Fault::BatchDuplicateResponseId(k) ==> k < responses@.len(),
    ensures
        e == fault_error_spec(fault, responses@),
{
    let report = match fault {
        Fault::WrongBatchResponseSize => JsonRpcFault::WrongBatchResponseSize,
        Fault::VersionMismatch => JsonRpcFault::VersionMismatch,
        Fault::WrongBatchResponseId(k) => JsonRpcFault::WrongBatchResponseId(
            clone_value(response_id(&responses[k])),
        ),
        Fault::BatchDuplicateResponseId(k) => JsonRpcFault::BatchDuplicateResponseId(
            clone_value(response_id(&responses[k])),
        ),
        Fault::NonceMismatch => JsonRpcFault::NonceMismatch,
    };
    Error::JsonRpc(into_jsonrpc_error(report))
}

/// Checks the response to a single request whose id is `expected_id`: it is
/// returned where it conforms to JSON-RPC 2.0, carries that id and holds no
/// error object; else a `VersionMismatch`, checked first, a `NonceMismatch`,
/// or the node's error as `jsonrpc::Error::Rpc`, checked last.
pub fn check_response(expected_id: &Value, response: Response) -> (r: Result<Response, Error>)
    ensures
        r == check_response_spec(*expected_id, response),
        response_jsonrpc_of(response) != Some("2.0"@) ==> r == Err::<Response, Error>(
            Error::JsonRpc(jsonrpc_error_of(JsonRpcFault::VersionMismatch)),
        ),
        response_jsonrpc_of(response) == Some("2.0"@) && !json_eq(response_id_of(response), *expected_id)
            ==> r == Err::<Response, Error>(Error::JsonRpc(jsonrpc_error_of(JsonRpcFault::NonceMismatch))),
        response_jsonrpc_of(response) == Some("2.0"@) && json_eq(response_id_of(response), *expected_id)
            ==> r == match response_rpc_error_of(response) {
            None => Ok::<Response, Error>(response),
            Some(e) => Err(Error::JsonRpc(e)),
        },
{
    let version = response_version(&response);
    let id_matches = values_equal(response_id(&response), expected_id);
    match response_fault(&version, id_matches) {
        None => match response_rpc_error(&response) {
            None => Ok(response),
            Some(e) => Err(Error::JsonRpc(e)),
        },
        Some(fault) => Err(fault_error(fault, &Vec::new())),
    }
}

/// Arranges `responses` in the given order.
fn arrange(responses: Vec<Response>, order: &Vec<usize>) -> (out: Vec<Response>)
    requires
        is_permutation(order@, responses@.len() as int),
    ensures
        out@ == Seq::new(order@.len(), |i: int| responses@[order@[i] as int]),
{
    let ghost given = responses@;
    let n = responses.len();
    // Index the responses by position.
    let mut by_index: BTreeMap<usize, Response> = BTreeMap::new();
    let mut rest = responses;
    while rest.len() > 0
        invariant
            rest@ == given.take(rest@.len() as int),
            rest@.len() <= n,
            n == given.len(),
            forall|k: usize| #[trigger]
                by_index@.contains_key(k) <==> rest@.len() <= k < n,
            forall|k: usize| #[trigger] by_index@.contains_key(k) ==> by_index@[k] == given[k as int],
        decreases rest@.len(),
    {
        let k = rest.len() - 1;
        let response = rest.pop().unwrap();
        by_index.insert(k, response);
        assert(rest@ =~= given.take(rest@.len() as int));
    }
    let mut out: Vec<Response> = Vec::new();
    for i in 0..n
        invariant
            n == given.len(),
            n == order@.len(),
            is_permutation(order@, n as int),
            out@.len() == i,
            forall|h: int| 0 <= h < i ==> #[trigger] out@[h] == given[order@[h] as int],
            forall|k: usize| #[trigger]
                by_index@.contains_key(k) <==> (k < n && forall|h: int|
                    0 <= h < i ==> #[trigger] order@[h] != k),
            forall|k: usize| #[trigger] by_index@.contains_key(k) ==> by_index@[k] == given[k as int],
    {
        let k = order[i];
        proof {
            assert forall|h: int| 0 <= h < i implies #[trigger] order@[h] != k by {
                assert(order@[h] != order@[i as int]);
            }
        }
        let response = by_index.remove(&k).unwrap();
        out.push(response);
    }
    assert(out@ =~= Seq::new(order@.len(), |i: int| given[order@[i] as int]));
    out
}

/// Reorders the responses to match the order of the given requests
///
/// # Errors
///
/// - If requests and responses are of mismatched length
/// - If a response returns an invalid, duplicate, or missing id
///
/// Which of these, and when, is [`reorder_result`]: [`reorder_spec`] on what
/// is read of the messages (whether the ids at each position are equal, the
/// integer ids of the requests, and the `jsonrpc` fields and integer ids of
/// the responses).
pub fn reorder(requests: &[Request], responses: Vec<Response>) -> (r: Result<Vec<Response>, Error>)
    ensures
        seq_result(r) == reorder_result(requests@, responses@),
        r is Ok <==> responses@.len() == requests@.len() && ((forall|i: int|
            0 <= i < requests@.len() ==> #[trigger] json_eq(
                request_id_of(requests@[i]),
                response_id_of(responses@[i]),
            )) || batch_complete(request_ids_of(requests@), metas_of(responses@))),
        responses@.len() == requests@.len() && (forall|i: int|
            0 <= i < requests@.len() ==> #[trigger] json_eq(
                request_id_of(requests@[i]),
                response_id_of(responses@[i]),
            )) ==> seq_result(r) == Ok::<Seq<Response>, Error>(responses@),
        responses@.len() != requests@.len() ==> r == Err::<Vec<Response>, Error>(
            fault_error_spec(Fault::WrongBatchResponseSize, responses@),
        ),
        r matches Ok(out) ==> exists|order: Seq<usize>|
            {
                &&& is_permutation(order, requests@.len() as int)
                &&& out@ == Seq::new(order.len(), |i: int| responses@[order[i] as int])
            },
        r matches Ok(out) ==> forall|i: int|
            0 <= i < out@.len() ==> json_u64(response_id_of(#[trigger] out@[i])) == json_u64(
                request_id_of(requests@[i]),
            ) && (json_eq(request_id_of(requests@[i]), response_id_of(out@[i])) || json_u64(
                request_id_of(requests@[i]),
            ) is Some),
{
    proof {
        lemma_reorder_succeeds_iff(
            positional_of(requests@, responses@),
            request_ids_of(requests@),
            metas_of(responses@),
        );
        let pos = positional_of(requests@, responses@);
        if responses@.len() == requests@.len() {
            assert((forall|i: int| 0 <= i < requests@.len() ==> #[trigger] pos[i]) <==> (forall|i: int|
                0 <= i < requests@.len() ==> #[trigger] json_eq(
                    request_id_of(requests@[i]),
                    response_id_of(responses@[i]),
                ))) by {
                assert forall|i: int|
                    #![trigger pos[i]]
                    #![trigger json_eq(request_id_of(requests@[i]), response_id_of(responses@[i]))]
                    0 <= i < requests@.len() implies pos[i] == json_eq(
                    request_id_of(requests@[i]),
                    response_id_of(responses@[i]),
                ) by {}
            }
        }
    }
    let n = requests.len();
    proof {
        let pos = positional_of(requests@, responses@);
        if responses@.len() == requests@.len() && forall|i: int|
            0 <= i < requests@.len() ==> #[trigger] pos[i] {
            let ident = Seq::new(requests@.len(), |i: int| i as usize);
            assert(reorder_spec(pos, request_ids_of(requests@), metas_of(responses@)) == Ok::<
                Seq<usize>,
                Fault,
            >(ident));
            assert(Seq::new(ident.len(), |i: int| responses@[ident[i] as int]) =~= responses@);
        }
    }
    let m = responses.len();
    // Whether the ids at each position are equal.
    let mut positional: Vec<bool> = Vec::new();
    if m == n {
        for i in 0..n
            invariant
                n == requests@.len(),
                n == responses@.len(),
                positional@.len() == i,
                forall|h: int|
                    0 <= h < i ==> #[trigger] positional@[h] == positional_of(
                        requests@,
                        responses@,
                    )[h],
                forall|h: int|
                    0 <= h < i && #[trigger] positional@[h] ==> json_u64(request_id_of(requests@[h]))
                        == json_u64(response_id_of(responses@[h])),
        {
            positional.push(values_equal(request_id(&requests[i]), response_id(&responses[i])));
        }
        assert(positional@ =~= positional_of(requests@, responses@));
    }
    let ghost pos_u64 = forall|h: int|
        0 <= h < positional@.len() && #[trigger] positional@[h] ==> json_u64(
            request_id_of(requests@[h]),
        ) == json_u64(response_id_of(responses@[h]));
    assert(pos_u64);
    let mut request_ids: Vec<Option<u64>> = Vec::new();
    for i in 0..n
        invariant
            n == requests@.len(),
            request_ids@.len() == i,
            forall|h: int| 0 <= h < i ==> #[trigger] request_ids@[h] == request_ids_of(requests@)[h],
    {
        request_ids.push(value_as_u64(request_id(&requests[i])));
    }
    assert(request_ids@ =~= request_ids_of(requests@));
    let mut metas: Vec<ResponseMeta> = Vec::new();
    for j in 0..m
        invariant
            m == responses@.len(),
            metas@.len() == j,
            forall|h: int| 0 <= h < j ==> (#[trigger] metas@[h])@ == metas_of(responses@)[h],
    {
        let meta = ResponseMeta {
            jsonrpc: response_version(&responses[j]),
            id: value_as_u64(response_id(&responses[j])),
        };
        metas.push(meta);
    }
    assert(metas_view(metas@) =~= metas_of(responses@));
    let ghost spec_result = reorder_spec(positional_of(requests@, responses@), request_ids@, metas_view(metas@));
    proof {
        if m == n {
            assert(reorder_spec(positional@, request_ids@, metas_view(metas@)) == spec_result);
        }
    }
    let planned = reorder_plan(&positional, &request_ids, &metas);
    match planned {
        Ok(order) => {
            proof {
                lemma_reorder_pairs_each_request(
                    positional@,
                    request_ids@,
                    metas_view(metas@),
                    order@,
                );
            }
            let ghost given = responses@;
            let out = arrange(responses, &order);
            proof {
                assert forall|i: int| 0 <= i < out@.len() implies json_u64(
                    response_id_of(#[trigger] out@[i]),
                ) == json_u64(request_id_of(requests@[i])) && (json_eq(
                    request_id_of(requests@[i]),
                    response_id_of(out@[i]),
                ) || json_u64(request_id_of(requests@[i])) is Some) by {
                    assert(out@[i] == given[order@[i] as int]);
                    assert(metas_view(metas@)[order@[i] as int] == metas_of(given)[order@[i] as int]);
                    assert(request_ids@[i] == request_ids_of(requests@)[i]);
                    if positional@[i] && order@[i] == i {
                        assert(positional@[i] == positional_of(requests@, given)[i]);
                    }
                }
            }
            Ok(out)
        },
        Err(fault) => {
            proof {
                let resp = metas_view(metas@);
                if let Fault::WrongBatchResponseId(k) = fault {
                    let k2 = choose|k: int| first_rejected(resp, k);
                    assert(first_rejected(resp, k2));
                }
                if let Fault::BatchDuplicateResponseId(k) = fault {
                    let k2 = choose|k: int| first_rejected(resp, k);
                    assert(first_rejected(resp, k2));
                }
            }
            Err(fault_error(fault, &responses))
        },
    }
}

} // verus!
