//! The RPC methods that the client knows by name.

use vstd::prelude::*;

verus! {

/// The RPC methods of `bitcoind` that this library has helpers for.
///
/// Each name is the name of the RPC method, in lower case.
#[derive(Debug, Clone, Copy, PartialEq, Eq, Hash)]
#[non_exhaustive]
pub enum Rpc {
    /// `getbestblockhash`
    GetBestBlockHash,
    /// `getblockchaininfo`
    GetBlockchainInfo,
    /// `getblockhash`
    GetBlockHash,
    /// `getblockcount`
    GetBlockCount,
    /// `getblock`
    GetBlock,
    /// `getblockheader`
    GetBlockHeader,
    /// `getblockfilter`
    GetBlockFilter,
    /// `getdescriptorinfo`
    GetDescriptorInfo,
    /// `getrawmempool`
    GetRawMempool,
    /// `sendtoaddress`
    SendToAddress,
    /// `getrawtransaction`
    GetRawTransaction,
    /// `importdescriptors`
    ImportDescriptors,
    /// `estimatesmartfee`
    EstimateSmartFee,
}

impl Rpc {
    /// The method name that the node knows this RPC by.
    pub open spec fn name(self) -> Seq<char> {
        match self {
            Rpc::GetBestBlockHash => "getbestblockhash"@,
            Rpc::GetBlockchainInfo => "getblockchaininfo"@,
            Rpc::GetBlockHash => "getblockhash"@,
            Rpc::GetBlockCount => "getblockcount"@,
            Rpc::GetBlock => "getblock"@,
            Rpc::GetBlockHeader => "getblockheader"@,
            Rpc::GetBlockFilter => "getblockfilter"@,
            Rpc::GetDescriptorInfo => "getdescriptorinfo"@,
            Rpc::GetRawMempool => "getrawmempool"@,
            Rpc::SendToAddress => "sendtoaddress"@,
            Rpc::GetRawTransaction => "getrawtransaction"@,
            Rpc::ImportDescriptors => "importdescriptors"@,
            Rpc::EstimateSmartFee => "estimatesmartfee"@,
        }
    }

    /// Returns the RPC method name string.
    pub fn as_str(&self) -> (s: &'static str)
        ensures
            s@ == self.name(),
    {
        match self {
            Rpc::GetBestBlockHash => "getbestblockhash",
            Rpc::GetBlockchainInfo => "getblockchaininfo",
            Rpc::GetBlockHash => "getblockhash",
            Rpc::GetBlockCount => "getblockcount",
            Rpc::GetBlock => "getblock",
            Rpc::GetBlockHeader => "getblockheader",
            Rpc::GetBlockFilter => "getblockfilter",
            Rpc::GetDescriptorInfo => "getdescriptorinfo",
            Rpc::GetRawMempool => "getrawmempool",
            Rpc::SendToAddress => "sendtoaddress",
            Rpc::GetRawTransaction => "getrawtransaction",
            Rpc::ImportDescriptors => "importdescriptors",
            Rpc::EstimateSmartFee => "estimatesmartfee",
        }
    }

    /// The name of the RPC, as an owned string (what `Display` writes).
    pub fn to_string(&self) -> (s: String)
        ensures
            s@ == self.name(),
    {
        self.as_str().to_owned()
    }
}

/// Each name is written in lower-case ASCII letters.
pub open spec fn is_lowercase_name(name: Seq<char>) -> bool {
    name.len() > 0 && forall|i: int| 0 <= i < name.len() ==> 'a' <= #[trigger] name[i] <= 'z'
}

/// Distinct RPCs have distinct method names, and each name is a lower-case
/// word: a name, given to the node, selects one RPC.
pub proof fn lemma_names_distinct_lowercase(a: Rpc, b: Rpc)
    ensures
        a != b ==> a.name() != b.name(),
        is_lowercase_name(a.name()),
{
        reveal_strlit("getbestblockhash");
        reveal_strlit("getblockchaininfo");
        reveal_strlit("getblockhash");
        reveal_strlit("getblockcount");
        reveal_strlit("getblock");
        reveal_strlit("getblockheader");
        reveal_strlit("getblockfilter");
        reveal_strlit("getdescriptorinfo");
        reveal_strlit("getrawmempool");
        reveal_strlit("sendtoaddress");
        reveal_strlit("getrawtransaction");
        reveal_strlit("importdescriptors");
        reveal_strlit("estimatesmartfee");
    if a != b {
        assert(a.name() != b.name()) by {
            if a.name() == b.name() {
                assert(a.name().len() == b.name().len());
                assert(a.name()[3] == b.name()[3]);
                assert(a.name()[8] == b.name()[8]);
                assert(a.name()[9] == b.name()[9]);
                assert(a.name()[10] == b.name()[10]);
                assert(a.name()[13] == b.name()[13]);
            }
        }
    }
}

impl AsRef<str> for Rpc {
    fn as_ref(&self) -> (s: &str)
        ensures
            s@ == self.name(),
    {
        self.as_str()
    }
}

/// A value that names an RPC method: an [`Rpc`] or any method name string.
pub trait MethodName {
    /// The method name.
    spec fn method_name(&self) -> Seq<char>;

    /// The method name, as an owned string.
    fn into_method(self) -> (s: String)
        ensures
            s@ == self.method_name(),
    ;
}

impl MethodName for Rpc {
    open spec fn method_name(&self) -> Seq<char> {
        self.name()
    }

    fn into_method(self) -> (s: String) {
        self.as_str().to_owned()
    }
}

/// The method name that a call records is the name given: an [`Rpc`]'s own
/// RPC name, or the string itself.
pub proof fn lemma_method_names(rpc: Rpc, name: String, text: &str)
    ensures
        rpc.method_name() == rpc.name(),
        name.method_name() == name@,
        text.method_name() == text@,
{
}

impl MethodName for String {
    open spec fn method_name(&self) -> Seq<char> {
        self@
    }

    fn into_method(self) -> (s: String) {
        self
    }
}

impl<'a> MethodName for &'a str {
    open spec fn method_name(&self) -> Seq<char> {
        (*self)@
    }

    fn into_method(self) -> (s: String) {
        self.to_owned()
    }
}

} // verus!
