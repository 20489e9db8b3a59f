use bitcoind_client::jsonrpc::serde_json::value::to_raw_value;
use bitcoind_client::jsonrpc::serde_json::Value;
use bitcoind_client::jsonrpc::{self, Request, Response};
use bitcoind_client::{reorder, reorder_plan, Error, Fault, ResponseMeta};

fn req(id: u64) -> Request<'static> {
    Request { method: "test", params: None, id: Value::from(id), jsonrpc: Some("2.0") }
}

fn resp(id: Value) -> Response {
    Response {
        result: Some(to_raw_value(&true).unwrap()),
        error: None,
        id,
        jsonrpc: Some("2.0".to_string()),
    }
}

#[test]
fn in_order_responses_return_unchanged() {
    let requests = vec![req(0), req(1), req(2)];
    // Ids already line up positionally, so they should be returned unchanged.
    let responses = vec![resp(Value::from(0)), resp(Value::from(1)), resp(Value::from(2))];
    let result = reorder(&requests, responses).unwrap();
    let ids: Vec<_> = result.iter().map(|r| r.id.as_u64().unwrap()).collect();
    assert_eq!(ids, [0, 1, 2]);
}

#[test]
fn responses_are_reordered() {
    let requests = vec![req(0), req(1), req(2)];
    let responses = vec![resp(Value::from(2)), resp(Value::from(0)), resp(Value::from(1))];
    let result = reorder(&requests, responses).unwrap();
    let ids: Vec<_> = result.iter().map(|r| r.id.as_u64().unwrap()).collect();
    assert_eq!(ids, [0, 1, 2]);
}

#[test]
fn null_response_id_errors() {
    let requests = vec![req(0), req(1)];
    let responses = vec![resp(Value::from(1)), resp(Value::Null)];
    let err = reorder(&requests, responses).unwrap_err();
    assert!(matches!(
        err,
        Error::JsonRpc(jsonrpc::Error::WrongBatchResponseId(id))
        if id == Value::Null
    ));
}

#[test]
fn string_response_id_errors() {
    let requests = vec![req(0), req(1)];
    let responses = vec![resp(Value::from(1)), resp(Value::from("0"))];
    let err = reorder(&requests, responses).unwrap_err();
    assert!(matches!(
        err,
        Error::JsonRpc(jsonrpc::Error::WrongBatchResponseId(id))
        if id == Value::from("0")
    ));
}

#[test]
fn duplicate_response_ids_error() {
    let requests = vec![req(0), req(1)];
    let responses = vec![resp(Value::from(0)), resp(Value::from(0))];
    let err = reorder(&requests, responses).unwrap_err();
    assert!(matches!(
        err,
        Error::JsonRpc(jsonrpc::Error::BatchDuplicateResponseId(dup_id))
        if dup_id == Value::from(0)
    ));
}

#[test]
fn unrequested_response_ids_error() {
    let requests = vec![req(0), req(1)];
    // Correct length and no duplicates, but neither id was ever requested.
    let responses = vec![resp(Value::from(7)), resp(Value::from(8))];
    let err = reorder(&requests, responses).unwrap_err();
    assert!(matches!(err, Error::JsonRpc(jsonrpc::Error::NonceMismatch)));
}

#[test]
fn mismatched_response_count_errors() {
    let requests = vec![req(0), req(1)];
    let responses = vec![resp(Value::from(0))];
    let err = reorder(&requests, responses).unwrap_err();
    assert!(matches!(err, Error::JsonRpc(jsonrpc::Error::WrongBatchResponseSize)));
}

#[test]
fn in_order_responses_skip_the_version_check() {
    let requests = vec![req(0), req(1)];
    let mut second = resp(Value::from(1));
    second.jsonrpc = Some("1.0".to_string());
    let responses = vec![resp(Value::from(0)), second];
    let result = reorder(&requests, responses).unwrap();
    assert_eq!(result[1].jsonrpc.as_deref(), Some("1.0"));
}

#[test]
fn reordered_responses_with_wrong_version_error() {
    let requests = vec![req(0), req(1)];
    let mut first = resp(Value::from(1));
    first.jsonrpc = None;
    let responses = vec![first, resp(Value::from(0))];
    let err = reorder(&requests, responses).unwrap_err();
    assert!(matches!(err, Error::JsonRpc(jsonrpc::Error::VersionMismatch)));
}

#[test]
fn reordering_keeps_each_response_whole() {
    let requests = vec![req(5), req(9)];
    let mut a = resp(Value::from(9));
    a.result = Some(to_raw_value(&"nine").unwrap());
    let mut b = resp(Value::from(5));
    b.result = Some(to_raw_value(&"five").unwrap());
    let result = reorder(&requests, vec![a, b]).unwrap();
    assert_eq!(result[0].result::<String>().unwrap(), "five");
    assert_eq!(result[1].result::<String>().unwrap(), "nine");
}

fn meta(version: Option<&str>, id: Option<u64>) -> ResponseMeta {
    ResponseMeta { jsonrpc: version.map(|v| v.to_string()), id }
}

#[test]
fn plan_keeps_positional_order() {
    let plan = reorder_plan(
        &vec![true, true],
        &vec![Some(0), Some(1)],
        &vec![meta(None, None), meta(Some("x"), Some(3))],
    );
    assert_eq!(plan, Ok(vec![0, 1]));
}

#[test]
fn plan_matches_by_id() {
    let plan = reorder_plan(
        &vec![false, false, false],
        &vec![Some(10), Some(11), Some(12)],
        &vec![meta(Some("2.0"), Some(12)), meta(Some("2.0"), Some(10)), meta(Some("2.0"), Some(11))],
    );
    assert_eq!(plan, Ok(vec![1, 2, 0]));
}

#[test]
fn plan_size_fault() {
    let plan = reorder_plan(&vec![], &vec![Some(0), Some(1)], &vec![meta(Some("2.0"), Some(0))]);
    assert_eq!(plan, Err(Fault::WrongBatchResponseSize));
}

#[test]
fn plan_first_refused_response_decides() {
    // The first response is refused for its version before the second for its id.
    let plan = reorder_plan(
        &vec![false, false],
        &vec![Some(0), Some(1)],
        &vec![meta(Some("1.0"), Some(1)), meta(Some("2.0"), None)],
    );
    assert_eq!(plan, Err(Fault::VersionMismatch));
    let plan = reorder_plan(
        &vec![false, false],
        &vec![Some(0), Some(1)],
        &vec![meta(Some("2.0"), None), meta(Some("1.0"), Some(1))],
    );
    assert_eq!(plan, Err(Fault::WrongBatchResponseId(0)));
}

#[test]
fn plan_duplicate_names_the_earlier_response() {
    let plan = reorder_plan(
        &vec![false, false, false],
        &vec![Some(0), Some(1), Some(2)],
        &vec![meta(Some("2.0"), Some(2)), meta(Some("2.0"), Some(0)), meta(Some("2.0"), Some(2))],
    );
    assert_eq!(plan, Err(Fault::BatchDuplicateResponseId(0)));
}

#[test]
fn plan_repeated_request_id_is_a_nonce_mismatch() {
    let plan = reorder_plan(
        &vec![false, false],
        &vec![Some(1), Some(1)],
        &vec![meta(Some("2.0"), Some(0)), meta(Some("2.0"), Some(1))],
    );
    assert_eq!(plan, Err(Fault::NonceMismatch));
    let plan = reorder_plan(
        &vec![false, false],
        &vec![None, Some(1)],
        &vec![meta(Some("2.0"), Some(1)), meta(Some("2.0"), Some(0))],
    );
    assert_eq!(plan, Err(Fault::NonceMismatch));
}

#[test]
fn repeated_request_ids_are_not_matched_twice() {
    // Every response is well formed and the positions do not line up, but the
    // requests share an id, so one of them has no response of its own.
    let requests = vec![req(1), req(1)];
    let responses = vec![resp(Value::from(2)), resp(Value::from(1))];
    let err = reorder(&requests, responses).unwrap_err();
    assert!(matches!(err, Error::JsonRpc(jsonrpc::Error::NonceMismatch)));
}

#[test]
fn repeated_request_ids_answered_in_place_are_kept() {
    // Where every position lines up, the order is kept whatever the ids.
    let requests = vec![req(1), req(1)];
    let responses = vec![resp(Value::from(1)), resp(Value::from(1))];
    let result = reorder(&requests, responses).unwrap();
    assert_eq!(result.len(), 2);
}
