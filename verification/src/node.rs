//! The parameters that the client sends with the node's RPC methods, and the
//! reading of the node's replies into `bitcoin` and `corepc` types.
//!
//! The values of those crates are opaque to the proofs. Each decoding is one
//! call into them, named below; the functions here fix what is sent, which
//! decoding a reply goes through, and how its error is reported.

use vstd::prelude::*;
use vstd::string::to_string_from_display_ensures;
use std::collections::BTreeMap;
use corepc_types::bitcoin::block::Header;
use corepc_types::bitcoin::consensus::encode::FromHexError;
use corepc_types::bitcoin::hex::HexToArrayError;
use corepc_types::bitcoin::{Block, BlockHash, Transaction, Txid};
use corepc_types::model;
use corepc_types::v31;
use serde_json::Value;

use crate::error::Error;
use crate::json::{json_u64, value_from_usize};

verus! {

/// A block hash of the `bitcoin` crate.
#[verifier::external_type_specification]
#[verifier::external_body]
pub struct ExBlockHash(BlockHash);

/// A transaction id of the `bitcoin` crate.
#[verifier::external_type_specification]
#[verifier::external_body]
pub struct ExTxid(Txid);

/// A block of the `bitcoin` crate.
#[verifier::external_type_specification]
#[verifier::external_body]
pub struct ExBlock(Block);

/// A block header of the `bitcoin` crate.
#[verifier::external_type_specification]
#[verifier::external_body]
pub struct ExHeader(Header);

/// A transaction of the `bitcoin` crate.
#[verifier::external_type_specification]
#[verifier::external_body]
pub struct ExTransaction(Transaction);

/// The error of decoding a consensus-encoded value from hex.
#[verifier::external_type_specification]
#[verifier::external_body]
pub struct ExFromHexError(FromHexError);

/// The reply to `getblockchaininfo`.
#[verifier::external_type_specification]
#[verifier::external_body]
pub struct ExGetBlockchainInfo(v31::GetBlockchainInfo);

/// The error of modelling the reply to `getblockchaininfo`.
#[verifier::external_type_specification]
#[verifier::external_body]
pub struct ExGetBlockchainInfoError(v31::GetBlockchainInfoError);

/// The model of the reply to `getblockchaininfo`.
#[verifier::external_type_specification]
#[verifier::external_body]
pub struct ExModelGetBlockchainInfo(model::GetBlockchainInfo);

/// The reply to `getblockheader`.
#[verifier::external_type_specification]
#[verifier::external_body]
pub struct ExGetBlockHeader(v31::GetBlockHeader);

/// The error of modelling the reply to `getblockheader`.
#[verifier::external_type_specification]
#[verifier::external_body]
pub struct ExGetBlockHeaderError(v31::GetBlockHeaderError);

/// The reply to `getblockheader` (verbose).
#[verifier::external_type_specification]
#[verifier::external_body]
pub struct ExGetBlockHeaderVerbose(v31::GetBlockHeaderVerbose);

/// The error of modelling the reply to `getblockheader` (verbose).
#[verifier::external_type_specification]
#[verifier::external_body]
pub struct ExGetBlockHeaderVerboseError(v31::GetBlockHeaderVerboseError);

/// The model of the reply to `getblockheader` (verbose).
#[verifier::external_type_specification]
#[verifier::external_body]
pub struct ExModelGetBlockHeaderVerbose(model::GetBlockHeaderVerbose);

/// The reply to `getblockfilter`.
#[verifier::external_type_specification]
#[verifier::external_body]
pub struct ExGetBlockFilter(v31::GetBlockFilter);

/// The error of modelling the reply to `getblockfilter`.
#[verifier::external_type_specification]
#[verifier::external_body]
pub struct ExGetBlockFilterError(v31::GetBlockFilterError);

/// The model of the reply to `getblockfilter`.
#[verifier::external_type_specification]
#[verifier::external_body]
pub struct ExModelGetBlockFilter(model::GetBlockFilter);

/// The reply to `getblock` (verbosity 0): the block in hex.
#[verifier::external_type_specification]
#[verifier::external_body]
pub struct ExGetBlockVerboseZero(v31::GetBlockVerboseZero);

/// The reply to `getblock` (verbosity 1).
#[verifier::external_type_specification]
#[verifier::external_body]
pub struct ExGetBlockVerboseOne(v31::GetBlockVerboseOne);

/// The error of modelling the reply to `getblock` (verbosity 1).
#[verifier::external_type_specification]
#[verifier::external_body]
pub struct ExGetBlockVerboseOneError(v31::GetBlockVerboseOneError);

/// The model of the reply to `getblock` (verbosity 1).
#[verifier::external_type_specification]
#[verifier::external_body]
pub struct ExModelGetBlockVerboseOne(model::GetBlockVerboseOne);

/// The reply to `getrawmempool`.
#[verifier::external_type_specification]
#[verifier::external_body]
pub struct ExGetRawMempool(v31::GetRawMempool);

/// The reply to `getrawmempool` (verbose).
#[verifier::external_type_specification]
#[verifier::external_body]
pub struct ExGetRawMempoolVerbose(v31::GetRawMempoolVerbose);

/// The error of modelling a mempool entry.
#[verifier::external_type_specification]
#[verifier::external_body]
pub struct ExMapMempoolEntryError(v31::MapMempoolEntryError);

/// The model of a mempool entry.
#[verifier::external_type_specification]
#[verifier::external_body]
pub struct ExMempoolEntry(model::MempoolEntry);

/// The reply to `sendtoaddress`.
#[verifier::external_type_specification]
#[verifier::external_body]
pub struct ExSendToAddress(v31::SendToAddress);

/// The reply to `getrawtransaction`.
#[verifier::external_type_specification]
#[verifier::external_body]
pub struct ExGetRawTransaction(v31::GetRawTransaction);

/// What `<BlockHash as FromStr>::from_str` reads from a text.
pub uninterp spec fn block_hash_parse_of(hex: Seq<char>) -> Result<BlockHash, HexToArrayError>;

/// The JSON value of a block hash (`serde_json::to_value`): its hex string.
pub uninterp spec fn block_hash_json(hash: BlockHash) -> Value;

/// The JSON value of a transaction id (`serde_json::to_value`): its hex string.
pub uninterp spec fn txid_json(txid: Txid) -> Value;

/// The JSON boolean `b` (`serde_json::Value::from(bool)`).
pub uninterp spec fn bool_json(b: bool) -> Value;

/// The JSON string `s` (`serde_json::Value::from(&str)`).
pub uninterp spec fn str_json(s: Seq<char>) -> Value;

/// What `v31::GetBlockchainInfo::into_model` makes of a reply.
pub uninterp spec fn blockchain_info_model_of(
    res: v31::GetBlockchainInfo,
) -> Result<model::GetBlockchainInfo, v31::GetBlockchainInfoError>;

/// The header that `v31::GetBlockHeader::into_model` makes of a reply.
pub uninterp spec fn block_header_model_of(res: v31::GetBlockHeader) -> Result<Header, v31::GetBlockHeaderError>;

/// What `v31::GetBlockHeaderVerbose::into_model` makes of a reply.
pub uninterp spec fn block_header_verbose_model_of(
    res: v31::GetBlockHeaderVerbose,
) -> Result<model::GetBlockHeaderVerbose, v31::GetBlockHeaderVerboseError>;

/// What `v31::GetBlockFilter::into_model` makes of a reply.
pub uninterp spec fn block_filter_model_of(
    res: v31::GetBlockFilter,
) -> Result<model::GetBlockFilter, v31::GetBlockFilterError>;

/// The block that `v31::GetBlockVerboseZero::block` decodes from a reply.
pub uninterp spec fn block_of(res: v31::GetBlockVerboseZero) -> Result<Block, FromHexError>;

/// What `v31::GetBlockVerboseOne::into_model` makes of a reply.
pub uninterp spec fn block_verbose_model_of(
    res: v31::GetBlockVerboseOne,
) -> Result<model::GetBlockVerboseOne, v31::GetBlockVerboseOneError>;

/// The transaction ids that `v31::GetRawMempool::into_model` makes of a reply.
pub uninterp spec fn raw_mempool_model_of(res: v31::GetRawMempool) -> Result<Vec<Txid>, HexToArrayError>;

/// The entries that `v31::GetRawMempoolVerbose::into_model` makes of a reply.
pub uninterp spec fn raw_mempool_verbose_model_of(
    res: v31::GetRawMempoolVerbose,
) -> Result<BTreeMap<Txid, model::MempoolEntry>, v31::MapMempoolEntryError>;

/// The transaction id that `v31::SendToAddress::txid` reads from a reply.
pub uninterp spec fn sent_txid_of(res: v31::SendToAddress) -> Result<Txid, HexToArrayError>;

/// The transaction that `v31::GetRawTransaction::into_model` makes of a reply.
pub uninterp spec fn raw_transaction_model_of(res: v31::GetRawTransaction) -> Result<Transaction, FromHexError>;

/// `serde_json::to_value` on a transaction id. An id serializes through its
/// `Display` text, which `serde_json`'s value serializer takes without fail.
#[verifier::external_body]
fn txid_to_value(txid: &Txid) -> (r: Result<Value, serde_json::Error>)
    ensures
        match r {
            Ok(v) => v == txid_json(*txid),
            Err(_) => false,
        },
{
    serde_json::to_value(txid)
}

/// `serde_json::Value::from(bool)`.
#[verifier::external_body]
fn value_from_bool(b: bool) -> (r: Value)
    ensures
        r == bool_json(b),
{
    Value::from(b)
}

/// `serde_json::Value::from(&str)`.
#[verifier::external_body]
fn value_from_str(s: &str) -> (r: Value)
    ensures
        r == str_json(s@),
{
    Value::from(s)
}

/// `v31::GetBlockchainInfo::into_model`.
#[verifier::external_body]
fn blockchain_info_model(
    res: v31::GetBlockchainInfo,
) -> (r: Result<model::GetBlockchainInfo, v31::GetBlockchainInfoError>)
    ensures
        r == blockchain_info_model_of(res),
{
    res.into_model()
}

/// `v31::GetBlockHeader::into_model`, and the header it holds.
#[verifier::external_body]
fn block_header_model(res: v31::GetBlockHeader) -> (r: Result<Header, v31::GetBlockHeaderError>)
    ensures
        r == block_header_model_of(res),
{
    res.into_model().map(|m| m.0)
}

/// `v31::GetBlockHeaderVerbose::into_model`.
#[verifier::external_body]
fn block_header_verbose_model(
    res: v31::GetBlockHeaderVerbose,
) -> (r: Result<model::GetBlockHeaderVerbose, v31::GetBlockHeaderVerboseError>)
    ensures
        r == block_header_verbose_model_of(res),
{
    res.into_model()
}

/// `v31::GetBlockFilter::into_model`.
#[verifier::external_body]
fn block_filter_model(
    res: v31::GetBlockFilter,
) -> (r: Result<model::GetBlockFilter, v31::GetBlockFilterError>)
    ensures
        r == block_filter_model_of(res),
{
    res.into_model()
}

/// `v31::GetBlockVerboseZero::block`: the block decoded from its hex.
#[verifier::external_body]
fn decode_block(res: v31::GetBlockVerboseZero) -> (r: Result<Block, FromHexError>)
    ensures
        r == block_of(res),
{
    res.block()
}

/// `v31::GetBlockVerboseOne::into_model`.
#[verifier::external_body]
fn block_verbose_model(
    res: v31::GetBlockVerboseOne,
) -> (r: Result<model::GetBlockVerboseOne, v31::GetBlockVerboseOneError>)
    ensures
        r == block_verbose_model_of(res),
{
    res.into_model()
}

/// `v31::GetRawMempool::into_model`, and the ids it holds.
#[verifier::external_body]
fn raw_mempool_model(res: v31::GetRawMempool) -> (r: Result<Vec<Txid>, HexToArrayError>)
    ensures
        r == raw_mempool_model_of(res),
{
    res.into_model().map(|m| m.0)
}

/// `v31::GetRawMempoolVerbose::into_model`, and the entries it holds.
#[verifier::external_body]
fn raw_mempool_verbose_model(
    res: v31::GetRawMempoolVerbose,
) -> (r: Result<BTreeMap<Txid, model::MempoolEntry>, v31::MapMempoolEntryError>)
    ensures
        r == raw_mempool_verbose_model_of(res),
{
    res.into_model().map(|m| m.0)
}

/// `v31::SendToAddress::txid`.
#[verifier::external_body]
fn sent_txid(res: v31::SendToAddress) -> (r: Result<Txid, HexToArrayError>)
    ensures
        r == sent_txid_of(res),
{
    res.txid()
}

/// `v31::GetRawTransaction::into_model`, and the transaction it holds.
#[verifier::external_body]
fn raw_transaction_model(res: v31::GetRawTransaction) -> (r: Result<Transaction, FromHexError>)
    ensures
        r == raw_transaction_model_of(res),
{
    res.into_model().map(|m| m.0)
}

/// `<BlockHash as FromStr>::from_str`: the block hash written in hex, or the
/// hex error.
#[verifier::external_body]
fn parse_block_hash(hex: &str) -> (r: Result<BlockHash, HexToArrayError>)
    ensures
        r == block_hash_parse_of(hex@),
{
    hex.parse::<BlockHash>()
}

/// `serde_json::to_value` on a block hash. A hash serializes through its
/// `Display` text, which `serde_json`'s value serializer takes without fail.
#[verifier::external_body]
fn block_hash_to_value(hash: &BlockHash) -> (r: Result<Value, serde_json::Error>)
    ensures
        match r {
            Ok(v) => v == block_hash_json(*hash),
            Err(_) => false,
        },
{
    serde_json::to_value(hash)
}

/// An error of a `corepc` model conversion, reported by its message.
pub open spec fn model_outcome<T, E: core::fmt::Display>(m: Result<T, E>, r: Result<T, Error>) -> bool {
    match m {
        Ok(v) => r == Ok::<T, Error>(v),
        Err(e) => r matches Err(Error::Model(s)) && to_string_from_display_ensures(&e, s),
    }
}

/// Reports the error of a model conversion as [`Error::Model`], by its
/// message; a converted value is passed on.
pub fn model_result<T, E: core::fmt::Display>(m: Result<T, E>) -> (r: Result<T, Error>)
    ensures
        model_outcome(m, r),
{
    match m {
        Ok(v) => Ok(v),
        Err(e) => Err(Error::Model(e.to_string())),
    }
}

/// The block hash that a reply holds in hex, or its hex error.
pub fn block_hash_from_reply(reply: &str) -> (r: Result<BlockHash, Error>)
    ensures
        r == match block_hash_parse_of(reply@) {
            Ok(h) => Ok::<BlockHash, Error>(h),
            Err(e) => Err(Error::BitcoinHexParse(e)),
        },
{
    match parse_block_hash(reply) {
        Ok(h) => Ok(h),
        Err(e) => Err(Error::BitcoinHexParse(e)),
    }
}

/// The parameters of `getblockhash`: the height.
pub fn block_hash_params(height: u32) -> (p: Vec<Value>)
    ensures
        p@.len() == 1,
        json_u64(p@[0]) == Some(height as u64),
{
    vec![value_from_usize(height as usize)]
}

/// The parameters of an RPC that takes a block hash alone (`getblockfilter`,
/// `getblockheader` verbose): the hash.
pub fn hash_params(hash: &BlockHash) -> (p: Vec<Value>)
    ensures
        p@ == seq![block_hash_json(*hash)],
{
    match block_hash_to_value(hash) {
        Ok(v) => vec![v],
        Err(_) => {
            proof {
                assert(false);
            }
            Vec::new()
        },
    }
}

/// The parameters of `getblockheader`: the hash, and `false` for the header
/// in hex.
pub fn block_header_params(hash: &BlockHash) -> (p: Vec<Value>)
    ensures
        p@ == seq![block_hash_json(*hash), bool_json(false)],
{
    let mut p = hash_params(hash);
    p.push(value_from_bool(false));
    p
}

/// The parameters of `getblock`: the hash and the verbosity.
pub fn block_params(hash: &BlockHash, verbosity: usize) -> (p: Vec<Value>)
    ensures
        p@.len() == 2,
        p@[0] == block_hash_json(*hash),
        json_u64(p@[1]) == Some(verbosity as u64),
{
    let mut p = hash_params(hash);
    p.push(value_from_usize(verbosity));
    p
}

/// The parameters of `getrawtransaction`: the transaction id.
pub fn txid_params(txid: &Txid) -> (p: Vec<Value>)
    ensures
        p@ == seq![txid_json(*txid)],
{
    match txid_to_value(txid) {
        Ok(v) => vec![v],
        Err(_) => {
            proof {
                assert(false);
            }
            Vec::new()
        },
    }
}

/// The parameters of `getdescriptorinfo`: the descriptor.
pub fn descriptor_info_params(descriptor: &str) -> (p: Vec<Value>)
    ensures
        p@ == seq![str_json(descriptor@)],
{
    vec![value_from_str(descriptor)]
}

/// The parameters of `estimatesmartfee`: the confirmation target in blocks.
pub fn fee_estimate_params(blocks: u32) -> (p: Vec<Value>)
    ensures
        p@.len() == 1,
        json_u64(p@[0]) == Some(blocks as u64),
{
    vec![value_from_usize(blocks as usize)]
}

/// The parameters of `getrawmempool` (verbose): `true`.
pub fn raw_mempool_verbose_params() -> (p: Vec<Value>)
    ensures
        p@ == seq![bool_json(true)],
{
    vec![value_from_bool(true)]
}

/// The model of the reply to `getblockchaininfo`.
pub fn blockchain_info_from_reply(
    res: v31::GetBlockchainInfo,
) -> (r: Result<model::GetBlockchainInfo, Error>)
    ensures
        model_outcome(blockchain_info_model_of(res), r),
{
    model_result(blockchain_info_model(res))
}

/// The header in the reply to `getblockheader`.
pub fn block_header_from_reply(res: v31::GetBlockHeader) -> (r: Result<Header, Error>)
    ensures
        model_outcome(block_header_model_of(res), r),
{
    model_result(block_header_model(res))
}

/// The model of the reply to `getblockheader` (verbose).
pub fn block_header_verbose_from_reply(
    res: v31::GetBlockHeaderVerbose,
) -> (r: Result<model::GetBlockHeaderVerbose, Error>)
    ensures
        model_outcome(block_header_verbose_model_of(res), r),
{
    model_result(block_header_verbose_model(res))
}

/// The model of the reply to `getblockfilter`.
pub fn block_filter_from_reply(res: v31::GetBlockFilter) -> (r: Result<model::GetBlockFilter, Error>)
    ensures
        model_outcome(block_filter_model_of(res), r),
{
    model_result(block_filter_model(res))
}

/// The block decoded from the reply to `getblock` (verbosity 0).
pub fn block_from_reply(res: v31::GetBlockVerboseZero) -> (r: Result<Block, Error>)
    ensures
        model_outcome(block_of(res), r),
{
    model_result(decode_block(res))
}

/// The model of the reply to `getblock` (verbosity 1).
pub fn block_verbose_from_reply(
    res: v31::GetBlockVerboseOne,
) -> (r: Result<model::GetBlockVerboseOne, Error>)
    ensures
        model_outcome(block_verbose_model_of(res), r),
{
    model_result(block_verbose_model(res))
}

/// The transaction ids in the reply to `getrawmempool`.
pub fn raw_mempool_from_reply(res: v31::GetRawMempool) -> (r: Result<Vec<Txid>, Error>)
    ensures
        model_outcome(raw_mempool_model_of(res), r),
{
    model_result(raw_mempool_model(res))
}

/// The mempool entries in the reply to `getrawmempool` (verbose).
pub fn raw_mempool_verbose_from_reply(
    res: v31::GetRawMempoolVerbose,
) -> (r: Result<BTreeMap<Txid, model::MempoolEntry>, Error>)
    ensures
        model_outcome(raw_mempool_verbose_model_of(res), r),
{
    model_result(raw_mempool_verbose_model(res))
}

/// The transaction in the reply to `getrawtransaction`.
pub fn raw_transaction_from_reply(res: v31::GetRawTransaction) -> (r: Result<Transaction, Error>)
    ensures
        model_outcome(raw_transaction_model_of(res), r),
{
    model_result(raw_transaction_model(res))
}

/// The id of the transaction that the reply to `sendtoaddress` names, or its
/// hex error.
pub fn txid_from_reply(res: v31::SendToAddress) -> (r: Result<Txid, Error>)
    ensures
        r == match sent_txid_of(res) {
            Ok(t) => Ok::<Txid, Error>(t),
            Err(e) => Err(Error::BitcoinHexParse(e)),
        },
{
    match sent_txid(res) {
        Ok(t) => Ok(t),
        Err(e) => Err(Error::BitcoinHexParse(e)),
    }
}

} // verus!
