use bitcoind_client::{MethodName, Rpc};

#[test]
fn test_rpc_method_names() {
    for (rpc, name) in [
        (Rpc::GetBestBlockHash, "getbestblockhash"),
        (Rpc::GetBlockchainInfo, "getblockchaininfo"),
        (Rpc::GetBlockHash, "getblockhash"),
        (Rpc::GetBlockCount, "getblockcount"),
        (Rpc::GetBlock, "getblock"),
        (Rpc::GetBlockHeader, "getblockheader"),
        (Rpc::GetBlockFilter, "getblockfilter"),
        (Rpc::GetDescriptorInfo, "getdescriptorinfo"),
        (Rpc::GetRawMempool, "getrawmempool"),
        (Rpc::SendToAddress, "sendtoaddress"),
        (Rpc::GetRawTransaction, "getrawtransaction"),
        (Rpc::ImportDescriptors, "importdescriptors"),
        (Rpc::EstimateSmartFee, "estimatesmartfee"),
    ] {
        let result = rpc.to_string();
        assert_eq!(result, name, "expected Rpc name {name}, got {result}");
    }
}

#[test]
fn rpc_names_are_distinct_lowercase_words() {
    let all = [
        Rpc::GetBestBlockHash,
        Rpc::GetBlockchainInfo,
        Rpc::GetBlockHash,
        Rpc::GetBlockCount,
        Rpc::GetBlock,
        Rpc::GetBlockHeader,
        Rpc::GetBlockFilter,
        Rpc::GetDescriptorInfo,
        Rpc::GetRawMempool,
        Rpc::SendToAddress,
        Rpc::GetRawTransaction,
        Rpc::ImportDescriptors,
        Rpc::EstimateSmartFee,
    ];
    for a in all {
        assert!(!a.as_str().is_empty());
        assert!(a.as_str().chars().all(|c| c.is_ascii_lowercase()));
        for b in all {
            if a != b {
                assert_ne!(a.as_str(), b.as_str());
            }
        }
    }
}

#[test]
fn rpc_as_ref_is_its_name() {
    let name: &str = Rpc::GetBlockHeader.as_ref();
    assert_eq!(name, "getblockheader");
}

#[test]
fn method_name_of_each_kind() {
    assert_eq!(Rpc::GetBlock.into_method(), "getblock");
    assert_eq!("generatetoaddress".into_method(), "generatetoaddress");
    assert_eq!(String::from("uptime").into_method(), "uptime");
}
