use bitcoind_client::jsonrpc::serde_json::value::to_raw_value;
use bitcoind_client::jsonrpc::serde_json::Value;
use bitcoind_client::jsonrpc::{self, Request, Response};
use bitcoind_client::{
    batch_params_json, check_response, params_json, response_fault, version_is_two, Batch, Client,
    Error, Fault, Rpc,
};

fn answer(id: Value, result: Value) -> Response {
    Response {
        result: Some(to_raw_value(&result).unwrap()),
        error: None,
        id,
        jsonrpc: Some("2.0".to_string()),
    }
}

#[test]
fn requests_are_numbered_from_zero() {
    let mut client = Client::new();
    let first = client.request("getblockcount", None);
    assert_eq!(first.id, Value::from(0));
    assert_eq!(first.jsonrpc, Some("2.0"));
    assert_eq!(first.method, "getblockcount");
    assert!(first.params.is_none());
    let second = client.request("getbestblockhash", None);
    assert_eq!(second.id, Value::from(1));
    let mut other = Client::default();
    assert_eq!(other.request("x", None).id, Value::from(0));
}

#[test]
fn empty_params_are_not_serialized() {
    assert!(matches!(params_json(&[]), Ok(None)));
    let raw = params_json(&[Value::from(3), Value::from(false)]).unwrap().unwrap();
    assert_eq!(raw.get(), "[3,false]");
}

#[test]
fn send_returns_the_matching_response() {
    let mut client = Client::new();
    let response = client
        .send(Rpc::GetBlockHash.as_str(), &[Value::from(7)], |request: Request| {
            assert_eq!(request.method, "getblockhash");
            assert_eq!(request.params.map(|p| p.get().to_string()), Some("[7]".to_string()));
            Ok(answer(request.id.clone(), Value::from("hash")))
        })
        .unwrap();
    assert_eq!(response.result::<String>().unwrap(), "hash");
    // The next request carries the next id.
    assert_eq!(client.request("m", None).id, Value::from(1));
}

#[test]
fn send_rejects_a_foreign_id() {
    let mut client = Client::new();
    let err = client
        .send("getblockcount", &[], |_request: Request| Ok(answer(Value::from(42), Value::from(1))))
        .unwrap_err();
    assert!(matches!(err, Error::JsonRpc(jsonrpc::Error::NonceMismatch)));
}

#[test]
fn send_rejects_a_wrong_version() {
    let mut client = Client::new();
    let err = client
        .send("getblockcount", &[], |request: Request| {
            let mut r = answer(request.id.clone(), Value::from(1));
            r.jsonrpc = None;
            Ok(r)
        })
        .unwrap_err();
    assert!(matches!(err, Error::JsonRpc(jsonrpc::Error::VersionMismatch)));
}

#[test]
fn send_wraps_transport_errors() {
    let mut client = Client::new();
    let err = client
        .send("getblockcount", &[], |_request: Request| Err(jsonrpc::Error::EmptyBatch))
        .unwrap_err();
    match err {
        Error::JsonRpc(jsonrpc::Error::Transport(inner)) => {
            assert_eq!(inner.to_string(), "batches can't be empty");
        }
        other => panic!("unexpected error: {:?}", other),
    }
    // The id was used all the same.
    assert_eq!(client.request("m", None).id, Value::from(1));
}

#[test]
fn send_batch_wraps_transport_errors() {
    let mut client = Client::new();
    let mut batch = Batch::new("a", vec![]);
    batch.push("b", vec![]);
    let err = client
        .send_batch(&batch, |_requests: &[Request]| Err(jsonrpc::Error::NonceMismatch))
        .unwrap_err();
    assert!(matches!(err, Error::JsonRpc(jsonrpc::Error::Transport(_))));
    assert_eq!(client.request("m", None).id, Value::from(2));
}

#[test]
fn check_response_checks_version_then_id() {
    let ok = check_response(&Value::from(3), answer(Value::from(3), Value::Null));
    assert!(ok.is_ok());
    let mut r = answer(Value::from(4), Value::Null);
    r.jsonrpc = Some("1.0".to_string());
    let err = check_response(&Value::from(3), r).unwrap_err();
    assert!(matches!(err, Error::JsonRpc(jsonrpc::Error::VersionMismatch)));
}

#[test]
fn response_fault_order() {
    let two = Some("2.0".to_string());
    assert_eq!(response_fault(&two, true), None);
    assert_eq!(response_fault(&two, false), Some(Fault::NonceMismatch));
    assert_eq!(response_fault(&None, false), Some(Fault::VersionMismatch));
    assert!(version_is_two(&two));
    assert!(!version_is_two(&Some("2.00".to_string())));
}

#[test]
fn send_batch_returns_responses_in_request_order() {
    let mut client = Client::new();
    let mut batch = Batch::new(Rpc::GetBlockCount, vec![]);
    batch.push(Rpc::GetBestBlockHash, vec![]);
    batch.push(Rpc::GetBlockHash, vec![Value::from(0)]);
    let responses = client
        .send_batch(&batch, |requests: &[Request]| {
            assert_eq!(requests.len(), 3);
            assert_eq!(requests[2].method, "getblockhash");
            assert_eq!(requests[2].params.map(|p| p.get().to_string()), Some("[0]".to_string()));
            assert!(requests[0].params.is_none());
            // Answer in reverse order.
            Ok(requests
                .iter()
                .rev()
                .map(|r| answer(r.id.clone(), Value::from(r.method)))
                .collect())
        })
        .unwrap();
    let methods: Vec<String> = responses.iter().map(|r| r.result().unwrap()).collect();
    assert_eq!(methods, ["getblockcount", "getbestblockhash", "getblockhash"]);
    assert_eq!(client.request("m", None).id, Value::from(3));
}

#[test]
fn send_batch_rejects_a_short_answer() {
    let mut client = Client::new();
    let mut batch = Batch::new("a", vec![]);
    batch.push("b", vec![]);
    let err = client
        .send_batch(&batch, |requests: &[Request]| {
            Ok(vec![answer(requests[0].id.clone(), Value::Null)])
        })
        .unwrap_err();
    assert!(matches!(err, Error::JsonRpc(jsonrpc::Error::WrongBatchResponseSize)));
}

#[test]
fn batch_holds_its_calls_in_order() {
    let mut batch = Batch::new(Rpc::GetBlockCount, vec![]);
    assert_eq!(batch.len(), 1);
    batch.push("getblockhash", vec![Value::from(1)]);
    batch.push(String::from("getblock"), vec![Value::from("h"), Value::from(0)]);
    assert_eq!(batch.len(), 3);
    let calls = batch.calls();
    assert_eq!(calls[0], ("getblockcount", &[][..]));
    assert_eq!(calls[1].0, "getblockhash");
    assert_eq!(calls[1].1, &[Value::from(1)][..]);
    assert_eq!(calls[2].1.len(), 2);
    let raw = batch_params_json(&batch).unwrap();
    assert!(raw[0].is_none());
    assert_eq!(raw[2].as_ref().unwrap().get(), "[\"h\",0]");
}

#[test]
fn batch_from_calls() {
    let none = Batch::from_calls(Vec::<(Rpc, Vec<Value>)>::new());
    assert!(none.is_none());
    let batch = Batch::from_calls(vec![
        (Rpc::GetBlockHash, vec![Value::from(1)]),
        (Rpc::GetBlockHash, vec![Value::from(2)]),
    ])
    .unwrap();
    assert_eq!(batch.len(), 2);
    assert_eq!(batch.calls()[1].1, &[Value::from(2)][..]);
}

#[test]
fn error_messages() {
    assert_eq!(Error::IdMismatch.to_string(), "request id mismatch");
    assert_eq!(Error::InvalidCookieFile.to_string(), "invaild cookie file");
    assert_eq!(Error::Returned("boom".to_string()).to_string(), "boom");
    assert_eq!(
        Error::JsonRpc(jsonrpc::Error::EmptyBatch).to_string(),
        "batches can't be empty"
    );
    let e: Error = jsonrpc::Error::NonceMismatch.into();
    assert!(matches!(e, Error::JsonRpc(jsonrpc::Error::NonceMismatch)));
}

#[test]
fn batch_clone_keeps_the_calls() {
    let mut batch = Batch::new(Rpc::GetBlockHash, vec![Value::from(4)]);
    batch.push(Rpc::GetBlock, vec![]);
    let copy = batch.clone();
    assert_eq!(copy.len(), 2);
    assert_eq!(copy.calls(), batch.calls());
}

#[test]
fn check_response_returns_the_node_error() {
    let mut r = answer(Value::from(3), Value::Null);
    r.result = None;
    r.error = Some(jsonrpc::error::RpcError { code: -8, message: "boom".to_string(), data: None });
    let err = check_response(&Value::from(3), r.clone()).unwrap_err();
    match err {
        Error::JsonRpc(jsonrpc::Error::Rpc(e)) => {
            assert_eq!(e.code, -8);
            assert_eq!(e.message, "boom");
        }
        other => panic!("unexpected error: {:?}", other),
    }
    // The version and the id are checked before the error object.
    let err = check_response(&Value::from(4), r.clone()).unwrap_err();
    assert!(matches!(err, Error::JsonRpc(jsonrpc::Error::NonceMismatch)));
    r.jsonrpc = None;
    let err = check_response(&Value::from(3), r).unwrap_err();
    assert!(matches!(err, Error::JsonRpc(jsonrpc::Error::VersionMismatch)));
}

#[test]
fn send_returns_the_node_error() {
    let mut client = Client::new();
    let err = client
        .send("getblockhash", &[Value::from(99)], |request: Request| {
            let mut r = answer(request.id.clone(), Value::Null);
            r.result = None;
            r.error = Some(jsonrpc::error::RpcError {
                code: -8,
                message: "Block height out of range".to_string(),
                data: None,
            });
            Ok(r)
        })
        .unwrap_err();
    assert!(matches!(err, Error::JsonRpc(jsonrpc::Error::Rpc(ref e)) if e.code == -8));
}

#[test]
fn batch_push_keeps_the_earlier_calls() {
    let mut batch = Batch::new("a", vec![Value::from(1)]);
    batch.push("b", vec![]);
    let before: Vec<(String, Vec<Value>)> =
        batch.calls().iter().map(|(m, p)| (m.to_string(), p.to_vec())).collect();
    batch.push(Rpc::GetBlockCount, vec![Value::from(2)]);
    assert_eq!(batch.len(), 3);
    let calls = batch.calls();
    for (i, (m, p)) in before.iter().enumerate() {
        assert_eq!(calls[i].0, m);
        assert_eq!(calls[i].1, &p[..]);
    }
    assert_eq!(calls[2], ("getblockcount", &[Value::from(2)][..]));
}
