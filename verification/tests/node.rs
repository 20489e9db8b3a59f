use bitcoind_client::corepc_types::bitcoin::{BlockHash, Txid};
use bitcoind_client::corepc_types::v31;
use bitcoind_client::jsonrpc::serde_json::Value;
use bitcoind_client::node::{
    block_from_reply, block_hash_from_reply, block_hash_params, block_header_from_reply,
    block_header_params, block_params, descriptor_info_params, fee_estimate_params, hash_params,
    model_result, raw_mempool_from_reply, raw_mempool_verbose_params, raw_transaction_from_reply,
    txid_from_reply, txid_params,
};
use bitcoind_client::Error;

const GENESIS_HASH: &str = "000000000019d6689c085ae165831e934ff763ae46a2a6c172b3f1b60a8ce26f";
const GENESIS_HEADER: &str = "0100000000000000000000000000000000000000000000000000000000000000000000003ba3edfd7a7b12b27ac72c3e67768f617fc81bc3888a51323a9fb8aa4b1e5e4a29ab5f49ffff001d1dac2b7c";
const SOME_TXID: &str = "4a5e1e4baab89f3a32518a88c31bc87f618f76673e2cc77ab2127b7afdeda33b";

fn genesis() -> BlockHash {
    GENESIS_HASH.parse().unwrap()
}

#[test]
fn block_hash_reply_is_parsed() {
    let hash = block_hash_from_reply(GENESIS_HASH).unwrap();
    assert_eq!(hash.to_string(), GENESIS_HASH);
    let err = block_hash_from_reply("not hex").unwrap_err();
    assert!(matches!(err, Error::BitcoinHexParse(_)));
    let err = block_hash_from_reply("00ff").unwrap_err();
    assert!(matches!(err, Error::BitcoinHexParse(_)));
}

#[test]
fn rpc_parameters() {
    assert_eq!(block_hash_params(7), vec![Value::from(7)]);
    assert_eq!(fee_estimate_params(6), vec![Value::from(6)]);
    assert_eq!(hash_params(&genesis()), vec![Value::from(GENESIS_HASH)]);
    assert_eq!(block_header_params(&genesis()), vec![Value::from(GENESIS_HASH), Value::Bool(false)]);
    assert_eq!(block_params(&genesis(), 0), vec![Value::from(GENESIS_HASH), Value::from(0)]);
    assert_eq!(block_params(&genesis(), 1), vec![Value::from(GENESIS_HASH), Value::from(1)]);
    let txid: Txid = SOME_TXID.parse().unwrap();
    assert_eq!(txid_params(&txid), vec![Value::from(SOME_TXID)]);
    assert_eq!(descriptor_info_params("wpkh(xpub)"), vec![Value::String("wpkh(xpub)".to_string())]);
    assert_eq!(raw_mempool_verbose_params(), vec![Value::Bool(true)]);
}

#[test]
fn sent_txid_is_parsed() {
    let txid = txid_from_reply(v31::SendToAddress(SOME_TXID.to_string())).unwrap();
    assert_eq!(txid.to_string(), SOME_TXID);
    let err = txid_from_reply(v31::SendToAddress("xyz".to_string())).unwrap_err();
    assert!(matches!(err, Error::BitcoinHexParse(_)));
}

#[test]
fn header_reply_is_decoded() {
    let header = block_header_from_reply(v31::GetBlockHeader(GENESIS_HEADER.to_string())).unwrap();
    assert_eq!(header.block_hash().to_string(), GENESIS_HASH);
    let err = block_header_from_reply(v31::GetBlockHeader("00".to_string())).unwrap_err();
    assert!(matches!(err, Error::Model(ref m) if !m.is_empty()));
}

#[test]
fn mempool_reply_is_decoded() {
    let ids = raw_mempool_from_reply(v31::GetRawMempool(vec![SOME_TXID.to_string()])).unwrap();
    assert_eq!(ids.len(), 1);
    assert_eq!(ids[0].to_string(), SOME_TXID);
    assert!(raw_mempool_from_reply(v31::GetRawMempool(vec![])).unwrap().is_empty());
    let err = raw_mempool_from_reply(v31::GetRawMempool(vec!["zz".to_string()])).unwrap_err();
    assert!(matches!(err, Error::Model(_)));
}

#[test]
fn undecodable_blocks_and_transactions_are_model_errors() {
    let err = block_from_reply(v31::GetBlockVerboseZero("zz".to_string())).unwrap_err();
    assert!(matches!(err, Error::Model(ref m) if !m.is_empty()));
    let err = raw_transaction_from_reply(v31::GetRawTransaction("0g".to_string())).unwrap_err();
    assert!(matches!(err, Error::Model(ref m) if !m.is_empty()));
}

#[test]
fn model_errors_keep_their_message() {
    let ok: Result<u8, std::fmt::Error> = Ok(3);
    assert!(matches!(model_result(ok), Ok(3)));
    let err = "x".parse::<u8>().unwrap_err();
    let message = err.to_string();
    match model_result::<u8, _>(Err(err)) {
        Err(Error::Model(m)) => assert_eq!(m, message),
        other => panic!("unexpected result: {:?}", other),
    }
}

