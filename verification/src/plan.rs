//! The decisions the client takes on responses: whether a response answers a
//! request, and how the responses of a batch are matched to its requests.
//!
//! Everything here works on what the client reads of a message (its `jsonrpc`
//! field and its id), so that each decision can be stated exactly.

use vstd::prelude::*;
use std::collections::BTreeMap;

use crate::json::text_of;

verus! {

broadcast use vstd::laws_cmp::group_laws_cmp;

/// What the client reads of a response: its `jsonrpc` field and its id, where
/// the id is an unsigned integer.
#[derive(Debug)]
pub struct ResponseMeta {
    /// The `jsonrpc` field.
    pub jsonrpc: Option<String>,
    /// The id, where it is a JSON number that is a non-negative integer.
    pub id: Option<u64>,
}

/// What the client reads of a response, as the contracts see it.
pub struct MetaView {
    /// The text of the `jsonrpc` field.
    pub jsonrpc: Option<Seq<char>>,
    /// The id, where it is an unsigned integer.
    pub id: Option<u64>,
}

impl View for ResponseMeta {
    type V = MetaView;

    open spec fn view(&self) -> MetaView {
        MetaView { jsonrpc: text_of(self.jsonrpc), id: self.id }
    }
}

/// The views of a list of response readings.
pub open spec fn metas_view(s: Seq<ResponseMeta>) -> Seq<MetaView> {
    Seq::new(s.len(), |i: int| s[i]@)
}

/// The ways in which responses can fail to answer the requests they were sent for.
#[derive(Debug, Clone, Copy, PartialEq, Eq, Structural)]
pub enum Fault {
    /// The number of responses differs from the number of requests.
    WrongBatchResponseSize,
    /// A response has a `jsonrpc` field other than "2.0".
    VersionMismatch,
    /// The response at this index has an id that is not an unsigned integer.
    WrongBatchResponseId(usize),
    /// The response at this index has the id of a later response.
    BatchDuplicateResponseId(usize),
    /// A response does not carry the id of its request, or a request has no response.
    NonceMismatch,
}

/// The `jsonrpc` field of a response conforms to JSON-RPC 2.0.
pub open spec fn is_version_two(jsonrpc: Option<Seq<char>>) -> bool {
    jsonrpc == Some("2.0"@)
}

/// The id of response `k` is also the id of an earlier response.
pub open spec fn id_seen_before(resp: Seq<MetaView>, k: int) -> bool {
    exists|j: int| 0 <= j < k && #[trigger] resp[j].id == resp[k].id
}

/// Response `k` of a batch is refused on its own or for repeating an earlier id.
pub open spec fn rejected(resp: Seq<MetaView>, k: int) -> bool {
    ||| !is_version_two(resp[k].jsonrpc)
    ||| resp[k].id is None
    ||| id_seen_before(resp, k)
}

/// Response `k` is the first response of the batch that is refused.
pub open spec fn first_rejected(resp: Seq<MetaView>, k: int) -> bool {
    &&& 0 <= k < resp.len()
    &&& rejected(resp, k)
    &&& forall|j: int| 0 <= j < k ==> !#[trigger] rejected(resp, j)
}

/// The fault reported for refusing response `k`.
pub open spec fn rejection(resp: Seq<MetaView>, k: int) -> Fault {
    if !is_version_two(resp[k].jsonrpc) {
        Fault::VersionMismatch
    } else if resp[k].id is None {
        Fault::WrongBatchResponseId(k as usize)
    } else {
        Fault::BatchDuplicateResponseId(
            (choose|j: int| 0 <= j < k && #[trigger] resp[j].id == resp[k].id) as usize,
        )
    }
}

/// Some response carries this id.
pub open spec fn has_response(resp: Seq<MetaView>, id: Option<u64>) -> bool {
    exists|j: int| 0 <= j < resp.len() && #[trigger] resp[j].id == id
}

/// The index of the response that carries this id.
pub open spec fn response_index(resp: Seq<MetaView>, id: Option<u64>) -> int {
    choose|j: int| 0 <= j < resp.len() && #[trigger] resp[j].id == id
}

/// Request `i` has an integer id, some response carries it, and no earlier
/// request has the same id (each response answers one request).
pub open spec fn answered(req: Seq<Option<u64>>, resp: Seq<MetaView>, i: int) -> bool {
    &&& req[i] is Some
    &&& has_response(resp, req[i])
    &&& forall|h: int| 0 <= h < i ==> #[trigger] req[h] != req[i]
}

/// For each request, the index of its response in the batch, or the fault that
/// keeps the batch from being matched.
///
/// `positional[i]` says whether response `i` carries the same id as request `i`;
/// `req` holds the integer ids of the requests and `resp` what was read of the
/// responses.
pub open spec fn reorder_spec(
    positional: Seq<bool>,
    req: Seq<Option<u64>>,
    resp: Seq<MetaView>,
) -> Result<Seq<usize>, Fault> {
    if resp.len() != req.len() {
        Err(Fault::WrongBatchResponseSize)
    } else if forall|i: int| 0 <= i < req.len() ==> #[trigger] positional[i] {
        Ok(Seq::new(req.len(), |i: int| i as usize))
    } else if exists|k: int| first_rejected(resp, k) {
        Err(rejection(resp, choose|k: int| first_rejected(resp, k)))
    } else if exists|i: int| 0 <= i < req.len() && !#[trigger] answered(req, resp, i) {
        Err(Fault::NonceMismatch)
    } else {
        Ok(Seq::new(req.len(), |i: int| response_index(resp, req[i]) as usize))
    }
}

/// The fault of a response to a single request: its `jsonrpc` field is checked
/// first, then whether it carries the request's id.
pub open spec fn response_fault_spec(jsonrpc: Option<Seq<char>>, id_matches: bool) -> Option<Fault> {
    if !is_version_two(jsonrpc) {
        Some(Fault::VersionMismatch)
    } else if !id_matches {
        Some(Fault::NonceMismatch)
    } else {
        None
    }
}

/// A single response is accepted only where its `jsonrpc` field is "2.0" and
/// its id is the request's: any other `jsonrpc` field is a version mismatch,
/// whether the id matches or not, and with "2.0" a foreign id is a nonce
/// mismatch.
pub proof fn lemma_response_fault_order(jsonrpc: Option<Seq<char>>, id_matches: bool)
    ensures
        jsonrpc != Some("2.0"@) ==> response_fault_spec(jsonrpc, id_matches) == Some(
            Fault::VersionMismatch,
        ),
        jsonrpc == Some("2.0"@) && !id_matches ==> response_fault_spec(jsonrpc, id_matches) == Some(
            Fault::NonceMismatch,
        ),
        response_fault_spec(jsonrpc, id_matches) is None <==> jsonrpc == Some("2.0"@) && id_matches,
{
}

/// Checks the response to a single request, given its `jsonrpc` field and
/// whether its id equals the request's id.
pub fn response_fault(jsonrpc: &Option<String>, id_matches: bool) -> (f: Option<Fault>)
    ensures
        f == response_fault_spec(text_of(*jsonrpc), id_matches),
        text_of(*jsonrpc) != Some("2.0"@) ==> f == Some(Fault::VersionMismatch),
        text_of(*jsonrpc) == Some("2.0"@) && !id_matches ==> f == Some(Fault::NonceMismatch),
        text_of(*jsonrpc) == Some("2.0"@) && id_matches ==> f is None,
{
    if !version_is_two(jsonrpc) {
        Some(Fault::VersionMismatch)
    } else if !id_matches {
        Some(Fault::NonceMismatch)
    } else {
        None
    }
}

/// Whether a `jsonrpc` field conforms to JSON-RPC 2.0.
pub fn version_is_two(jsonrpc: &Option<String>) -> (b: bool)
    ensures
        b == is_version_two(text_of(*jsonrpc)),
{
    match jsonrpc {
        Some(s) => {
            let two = "2.0".to_owned();
            *s == two
        },
        None => false,
    }
}

proof fn lemma_first_rejected_unique(resp: Seq<MetaView>, k: int)
    requires
        first_rejected(resp, k),
    ensures
        (choose|k2: int| first_rejected(resp, k2)) == k,
{
    let k2 = choose|k2: int| first_rejected(resp, k2);
    assert(first_rejected(resp, k2));
    if k2 < k {
        assert(!rejected(resp, k2));
    } else if k2 > k {
        assert(!rejected(resp, k));
    }
}

/// Matches the responses of a batch to its requests: for each request, the
/// index of the response that answers it.
///
/// If every response carries the id of the request at the same position, the
/// order is kept. Otherwise every response must conform to JSON-RPC 2.0 and
/// carry an integer id that no other response carries, and every request must
/// have an integer id that one response carries.
pub fn reorder_plan(
    positional: &Vec<bool>,
    requests: &Vec<Option<u64>>,
    responses: &Vec<ResponseMeta>,
) -> (r: Result<Vec<usize>, Fault>)
    requires
        responses.len() == requests.len() ==> positional.len() == requests.len(),
    ensures
        r matches Ok(v) ==> reorder_spec(positional@, requests@, metas_view(responses@)) == Ok::<
            Seq<usize>,
            Fault,
        >(v@),
        r matches Err(e) ==> reorder_spec(positional@, requests@, metas_view(responses@)) == Err::<
            Seq<usize>,
            Fault,
        >(e),
{
    let ghost req = requests@;
    let ghost resp = metas_view(responses@);
    let n = requests.len();
    if responses.len() != n {
        return Err(Fault::WrongBatchResponseSize);
    }
    // Responses already in the order of the requests are kept as they are.

    let mut all_positional = true;
    let mut i: usize = 0;
    while i < n
        invariant
            i <= n,
            n == positional.len(),
            all_positional <==> forall|h: int| 0 <= h < i ==> #[trigger] positional@[h],
        decreases n - i,
    {
        if !positional[i] {
            all_positional = false;
        }
        i += 1;
    }
    if all_positional {
        let mut identity: Vec<usize> = Vec::new();
        let mut i: usize = 0;
        while i < n
            invariant
                i <= n,
                identity@.len() == i,
                forall|h: int| 0 <= h < i ==> #[trigger] identity@[h] == h as usize,
            decreases n - i,
        {
            identity.push(i);
            i += 1;
        }
        assert(identity@ =~= Seq::new(req.len(), |i: int| i as usize));
        return Ok(identity);
    }
    let ghost mixed = !forall|i: int| 0 <= i < req.len() ==> #[trigger] positional@[i];
    assert(mixed);
    // Index every response by its id.
    let mut by_id: BTreeMap<u64, usize> = BTreeMap::new();
    let mut k: usize = 0;
    while k < n
        invariant
            k <= n,
            n == resp.len(),
            n == req.len(),
            resp == metas_view(responses@),
            req == requests@,
            positional@.len() == n,
            mixed == !forall|i: int| 0 <= i < req.len() ==> #[trigger] positional@[i],
            mixed,
            forall|j: int| 0 <= j < k ==> !#[trigger] rejected(resp, j),
            forall|j: int|
                0 <= j < k ==> (#[trigger] resp[j]).id is Some && by_id@.contains_key(
                    resp[j].id->0,
                ) && by_id@[resp[j].id->0] == j,
            forall|key: u64|
                #[trigger] by_id@.contains_key(key) ==> by_id@[key] < k && resp[by_id@[key] as int].id
                    == Some(key),
        decreases n - k,
    {
        if !version_is_two(&responses[k].jsonrpc) {
            proof {
                assert(first_rejected(resp, k as int));
                lemma_first_rejected_unique(resp, k as int);
            }
            return Err(Fault::VersionMismatch);
        }
        match responses[k].id {
            None => {
                proof {
                    assert(first_rejected(resp, k as int));
                    lemma_first_rejected_unique(resp, k as int);
                }
                return Err(Fault::WrongBatchResponseId(k));
            },
            Some(key) => {
                let previous = by_id.insert(key, k);
                match previous {
                    Some(j) => {
                        proof {
                            assert(resp[j as int].id == resp[k as int].id);
                            assert(id_seen_before(resp, k as int));
                            assert(first_rejected(resp, k as int));
                            lemma_first_rejected_unique(resp, k as int);
                            let j2 = choose|j2: int|
                                0 <= j2 < k && #[trigger] resp[j2].id == resp[k as int].id;
                            assert(0 <= j2 < k && resp[j2].id == resp[k as int].id);
                            if j2 < j {
                                assert(!rejected(resp, j as int));
                                assert(resp[j2].id == resp[j as int].id);
                            } else if j2 > j {
                                assert(!rejected(resp, j2));
                                assert(resp[j as int].id == resp[j2].id);
                            }
                        }
                        return Err(Fault::BatchDuplicateResponseId(j));
                    },
                    None => {
                        proof {
                            if id_seen_before(resp, k as int) {
                                let j2 = choose|j2: int|
                                    0 <= j2 < k && #[trigger] resp[j2].id == resp[k as int].id;
                                assert(by_id@.contains_key(key));
                            }
                            assert(!rejected(resp, k as int));
                        }
                    },
                }
            },
        }
        k += 1;
    }
    proof {
        if exists|k: int| first_rejected(resp, k) {
            let k2 = choose|k: int| first_rejected(resp, k);
            assert(!rejected(resp, k2));
        }
    }
    // Take, for each request in turn, the response that carries its id.

    let ghost full = by_id@;
    let mut order: Vec<usize> = Vec::new();
    let mut i: usize = 0;
    while i < n
        invariant
            i <= n,
            n == resp.len(),
            n == req.len(),
            resp == metas_view(responses@),
            req == requests@,
            positional@.len() == n,
            mixed == !forall|i: int| 0 <= i < req.len() ==> #[trigger] positional@[i],
            mixed,
            !exists|k: int| first_rejected(resp, k),
            order@.len() == i,
            forall|j: int| 0 <= j < n ==> !#[trigger] rejected(resp, j),
            forall|key: u64|
                #[trigger] full.contains_key(key) ==> full[key] < n && resp[full[key] as int].id
                    == Some(key),
            forall|j: int|
                0 <= j < n ==> (#[trigger] resp[j]).id is Some && full.contains_key(resp[j].id->0)
                    && full[resp[j].id->0] == j,
            forall|key: u64|
                #[trigger] by_id@.contains_key(key) <==> (full.contains_key(key) && forall|h: int|
                    0 <= h < i ==> #[trigger] req[h] != Some(key)),
            forall|key: u64| #[trigger] by_id@.contains_key(key) ==> by_id@[key] == full[key],
            forall|h: int| 0 <= h < i ==> #[trigger] answered(req, resp, h),
            forall|h: int|
                0 <= h < i ==> #[trigger] order@[h] == response_index(resp, req[h]) as usize,
        decreases n - i,
    {
        match requests[i] {
            None => {
                assert(!answered(req, resp, i as int));
                return Err(Fault::NonceMismatch);
            },
            Some(key) => {
                let found = by_id.remove(&key);
                match found {
                    None => {
                        proof {
                            if answered(req, resp, i as int) {
                                let j = choose|j: int|
                                    0 <= j < resp.len() && #[trigger] resp[j].id == req[i as int];
                                assert(full.contains_key(key));
                                assert(forall|h: int| 0 <= h < i ==> #[trigger] req[h] != req[i as int]);
                            }
                            assert(!answered(req, resp, i as int));
                        }
                        return Err(Fault::NonceMismatch);
                    },
                    Some(j) => {
                        proof {
                            assert(full.contains_key(key));
                            assert(resp[j as int].id == Some(key));
                            assert(has_response(resp, req[i as int]));
                            assert(answered(req, resp, i as int));
                            let j2 = response_index(resp, req[i as int]);
                            assert(0 <= j2 < resp.len() && resp[j2].id == Some(key));
                            assert(full[resp[j2].id->0] == j2);
                        }
                        order.push(j);
                    },
                }
            },
        }
        i += 1;
    }
    proof {
        assert(forall|i: int| 0 <= i < req.len() ==> #[trigger] answered(req, resp, i));
        assert(order@ =~= Seq::new(req.len(), |i: int| response_index(resp, req[i]) as usize));
    }
    Ok(order)
}

/// `p` lists each of the indices `0..n` once.
pub open spec fn is_permutation(p: Seq<usize>, n: int) -> bool {
    &&& p.len() == n
    &&& forall|i: int| 0 <= i < n ==> #[trigger] p[i] < n
    &&& forall|a: int, b: int| 0 <= a < b < n ==> #[trigger] p[a] != #[trigger] p[b]
}

/// A matched batch pairs every request with a response of its own: the order is
/// a permutation of the responses, and each request gets either the response at
/// its own position, when every position carries the request's id, or the
/// response that carries its integer id.
pub proof fn lemma_reorder_pairs_each_request(
    positional: Seq<bool>,
    req: Seq<Option<u64>>,
    resp: Seq<MetaView>,
    order: Seq<usize>,
)
    requires
        req.len() <= usize::MAX,
        resp.len() == req.len() ==> positional.len() == req.len(),
        reorder_spec(positional, req, resp) == Ok::<Seq<usize>, Fault>(order),
    ensures
        resp.len() == req.len(),
        is_permutation(order, req.len() as int),
        forall|i: int|
            0 <= i < req.len() ==> (positional[i] && #[trigger] order[i] == i) || (req[i] is Some
                && resp[order[i] as int].id == req[i]),
{
    if forall|i: int| 0 <= i < req.len() ==> #[trigger] positional[i] {
    } else {
        assert(!exists|k: int| first_rejected(resp, k));
        assert(order == Seq::new(req.len(), |i: int| response_index(resp, req[i]) as usize));
        assert forall|i: int| 0 <= i < req.len() implies #[trigger] answered(req, resp, i) by {}
        assert forall|i: int| 0 <= i < req.len() implies {
            &&& 0 <= response_index(resp, req[i]) < resp.len()
            &&& resp[response_index(resp, req[i])].id == req[i]
        } by {
            assert(answered(req, resp, i));
        }
        assert forall|a: int, b: int| 0 <= a < b < req.len() implies #[trigger] order[a]
            != #[trigger] order[b] by {
            assert(answered(req, resp, b));
            assert(req[a] != req[b]);
            assert(0 <= response_index(resp, req[a]) < resp.len());
            assert(0 <= response_index(resp, req[b]) < resp.len());
            assert(order[a] == response_index(resp, req[a]) as usize);
            assert(order[b] == response_index(resp, req[b]) as usize);
        }
        assert forall|i: int| 0 <= i < req.len() implies (req[i] is Some && resp[
            #[trigger] order[i] as int].id == req[i]) by {
            assert(answered(req, resp, i));
            assert(order[i] == response_index(resp, req[i]) as usize);
        }
    }
}

/// A batch answered completely is accepted: where the requests carry distinct
/// integer ids and the responses, all conforming to JSON-RPC 2.0, carry
/// distinct integer ids that include each request's id, the responses are
/// matched, each request to the response that carries its id (or kept in order,
/// where every position already matches).
pub proof fn lemma_complete_answers_are_matched(
    positional: Seq<bool>,
    req: Seq<Option<u64>>,
    resp: Seq<MetaView>,
)
    requires
        req.len() <= usize::MAX,
        resp.len() == req.len(),
        positional.len() == req.len(),
        forall|i: int| 0 <= i < req.len() ==> (#[trigger] req[i]) is Some,
        forall|a: int, b: int| 0 <= a < b < req.len() ==> #[trigger] req[a] != #[trigger] req[b],
        forall|j: int|
            0 <= j < resp.len() ==> is_version_two((#[trigger] resp[j]).jsonrpc) && resp[j].id is Some,
        forall|a: int, b: int|
            0 <= a < b < resp.len() ==> (#[trigger] resp[a]).id != (#[trigger] resp[b]).id,
        forall|i: int| 0 <= i < req.len() ==> has_response(resp, #[trigger] req[i]),
    ensures
        reorder_spec(positional, req, resp) is Ok,
        reorder_spec(positional, req, resp) matches Ok(order) ==> forall|i: int|
            0 <= i < req.len() ==> (positional[i] && #[trigger] order[i] == i) || resp[order[i] as int].id
                == req[i],
{
    assert forall|k: int| 0 <= k < resp.len() implies !#[trigger] rejected(resp, k) by {
        if id_seen_before(resp, k) {
            let j = choose|j: int| 0 <= j < k && #[trigger] resp[j].id == resp[k].id;
            assert(resp[j].id != resp[k].id);
        }
    }
    assert(!exists|k: int| first_rejected(resp, k));
    assert forall|i: int| 0 <= i < req.len() implies #[trigger] answered(req, resp, i) by {
        assert forall|h: int| 0 <= h < i implies #[trigger] req[h] != req[i] by {
            assert(req[h] != req[i]);
        }
    }
    if let Ok(order) = reorder_spec(positional, req, resp) {
        lemma_reorder_pairs_each_request(positional, req, resp, order);
    }
}

/// Every response conforms to JSON-RPC 2.0 and carries an integer id that no
/// other response carries, and every request carries an integer id, distinct
/// from the other requests' ids, that some response carries.
pub open spec fn batch_complete(req: Seq<Option<u64>>, resp: Seq<MetaView>) -> bool {
    &&& forall|j: int|
        0 <= j < resp.len() ==> is_version_two((#[trigger] resp[j]).jsonrpc) && resp[j].id is Some
    &&& forall|a: int, b: int|
        0 <= a < b < resp.len() ==> (#[trigger] resp[a]).id != (#[trigger] resp[b]).id
    &&& forall|i: int| 0 <= i < req.len() ==> (#[trigger] req[i]) is Some && has_response(resp, req[i])
    &&& forall|a: int, b: int| 0 <= a < b < req.len() ==> #[trigger] req[a] != #[trigger] req[b]
}

/// Where some response is refused, a first one is.
proof fn lemma_first_rejected_exists(resp: Seq<MetaView>, k: int)
    requires
        0 <= k < resp.len(),
        rejected(resp, k),
    ensures
        exists|k2: int| first_rejected(resp, k2),
    decreases k,
{
    if forall|j: int| 0 <= j < k ==> !#[trigger] rejected(resp, j) {
        assert(first_rejected(resp, k));
    } else {
        let j = choose|j: int| 0 <= j < k && #[trigger] rejected(resp, j);
        lemma_first_rejected_exists(resp, j);
    }
}

/// A batch is matched exactly when it has as many responses as requests and
/// either every response carries the id of the request at its position, or the
/// batch is complete: each response conforms to JSON-RPC 2.0 and carries an
/// integer id of its own, and the requests' integer ids, all distinct, are
/// among them.
pub proof fn lemma_reorder_succeeds_iff(
    positional: Seq<bool>,
    req: Seq<Option<u64>>,
    resp: Seq<MetaView>,
)
    requires
        resp.len() == req.len() ==> positional.len() == req.len(),
    ensures
        reorder_spec(positional, req, resp) is Ok <==> resp.len() == req.len() && ((forall|i: int|
            0 <= i < req.len() ==> #[trigger] positional[i]) || batch_complete(req, resp)),
{
    if resp.len() == req.len() && !(forall|i: int| 0 <= i < req.len() ==> #[trigger] positional[i]) {
        if batch_complete(req, resp) {
            assert forall|k: int| 0 <= k < resp.len() implies !#[trigger] rejected(resp, k) by {
                if id_seen_before(resp, k) {
                    let j = choose|j: int| 0 <= j < k && #[trigger] resp[j].id == resp[k].id;
                    assert(resp[j].id != resp[k].id);
                }
            }
            assert(!exists|k: int| first_rejected(resp, k));
            assert forall|i: int| 0 <= i < req.len() implies #[trigger] answered(req, resp, i) by {
                assert forall|h: int| 0 <= h < i implies #[trigger] req[h] != req[i] by {
                    assert(req[h] != req[i]);
                }
            }
        }
        if reorder_spec(positional, req, resp) is Ok {
            assert(!exists|k: int| first_rejected(resp, k));
            assert forall|k: int| 0 <= k < resp.len() implies !#[trigger] rejected(resp, k) by {
                if rejected(resp, k) {
                    lemma_first_rejected_exists(resp, k);
                }
            }
            assert forall|a: int, b: int| 0 <= a < b < resp.len() implies (#[trigger] resp[a]).id
                != (#[trigger] resp[b]).id by {
                assert(!rejected(resp, b));
                if resp[a].id == resp[b].id {
                    assert(id_seen_before(resp, b));
                }
            }
            assert forall|j: int| 0 <= j < resp.len() implies is_version_two(
                (#[trigger] resp[j]).jsonrpc,
            ) && resp[j].id is Some by {
                assert(!rejected(resp, j));
            }
            assert forall|i: int| 0 <= i < req.len() implies (#[trigger] req[i]) is Some
                && has_response(resp, req[i]) by {
                assert(answered(req, resp, i));
            }
            assert forall|a: int, b: int| 0 <= a < b < req.len() implies #[trigger] req[a]
                != #[trigger] req[b] by {
                assert(answered(req, resp, b));
            }
        }
    }
}

} // verus!
