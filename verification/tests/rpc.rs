use cold_deploy::rpc::{build_infura_url, resolve_rpc_url, RpcError};

#[test]
fn infura_url_for_mainnet() {
    assert_eq!(
        build_infura_url("mainnet", "abc123"),
        Ok("https://mainnet.infura.io/v3/abc123".to_string())
    );
}

#[test]
fn infura_url_ignores_case() {
    assert_eq!(
        build_infura_url("Polygon", "k"),
        Ok("https://polygon-mainnet.infura.io/v3/k".to_string())
    );
}

#[test]
fn infura_url_refuses_unknown_network() {
    assert_eq!(
        build_infura_url("Moonbeam", "k"),
        Err(RpcError::UnsupportedNetwork("Moonbeam".to_string()))
    );
}

#[test]
fn resolve_takes_a_direct_url_alone() {
    assert_eq!(
        resolve_rpc_url(Some("http://localhost:8545".to_string()), None, None),
        Ok("http://localhost:8545".to_string())
    );
}

#[test]
fn direct_url_excludes_network_and_key() {
    let url = || Some("http://localhost:8545".to_string());
    assert_eq!(
        resolve_rpc_url(url(), Some("mainnet".to_string()), Some("k".to_string())),
        Err(RpcError::ConflictingEndpoints)
    );
    assert_eq!(resolve_rpc_url(url(), Some("mainnet".to_string()), None), Err(RpcError::ConflictingEndpoints));
    assert_eq!(resolve_rpc_url(url(), None, Some("k".to_string())), Err(RpcError::ConflictingEndpoints));
    assert_eq!(resolve_rpc_url(url(), Some("nowhere".to_string()), None), Err(RpcError::ConflictingEndpoints));
    assert_eq!(
        RpcError::ConflictingEndpoints.message(),
        "--rpc-url cannot be used with --network or --infura-key"
    );
}

#[test]
fn resolve_needs_network_and_key() {
    assert_eq!(resolve_rpc_url(None, Some("mainnet".to_string()), None), Err(RpcError::MissingEndpoint));
    assert_eq!(resolve_rpc_url(None, None, Some("k".to_string())), Err(RpcError::MissingEndpoint));
    assert_eq!(resolve_rpc_url(None, None, None), Err(RpcError::MissingEndpoint));
}

#[test]
fn every_network_has_its_endpoint() {
    let hosts = [
        ("mainnet", "mainnet"),
        ("ethereum", "mainnet"),
        ("sepolia", "sepolia"),
        ("goerli", "goerli"),
        ("holesky", "holesky"),
        ("polygon", "polygon-mainnet"),
        ("polygon-mainnet", "polygon-mainnet"),
        ("polygon-amoy", "polygon-amoy"),
        ("arbitrum", "arbitrum-mainnet"),
        ("arbitrum-mainnet", "arbitrum-mainnet"),
        ("arbitrum-sepolia", "arbitrum-sepolia"),
        ("optimism", "optimism-mainnet"),
        ("optimism-mainnet", "optimism-mainnet"),
        ("optimism-sepolia", "optimism-sepolia"),
        ("base", "base-mainnet"),
        ("base-mainnet", "base-mainnet"),
        ("base-sepolia", "base-sepolia"),
        ("avalanche", "avalanche-mainnet"),
        ("avalanche-mainnet", "avalanche-mainnet"),
        ("avalanche-c-chain", "avalanche-mainnet"),
        ("avalanche-fuji", "avalanche-fuji"),
        ("linea", "linea-mainnet"),
        ("linea-mainnet", "linea-mainnet"),
        ("linea-sepolia", "linea-sepolia"),
    ];
    for (network, host) in hosts {
        assert_eq!(build_infura_url(network, "key"), Ok(format!("https://{}.infura.io/v3/key", host)));
        assert_eq!(
            build_infura_url(&network.to_uppercase(), "key"),
            Ok(format!("https://{}.infura.io/v3/key", host))
        );
    }
    assert_eq!(
        resolve_rpc_url(None, Some("Base".to_string()), Some("abc".to_string())),
        Ok("https://base-mainnet.infura.io/v3/abc".to_string())
    );
}

#[test]
fn endpoint_errors_have_messages() {
    assert_eq!(
        RpcError::MissingEndpoint.message(),
        "Must specify either --rpc-url OR (--network and --infura-key)"
    );
    assert_eq!(
        RpcError::UnsupportedNetwork("moon".to_string()).message(),
        "Unsupported network: 'moon'. Supported networks: mainnet, sepolia, goerli, holesky, polygon, polygon-amoy, arbitrum, arbitrum-sepolia, optimism, optimism-sepolia, base, base-sepolia, avalanche, avalanche-fuji, linea, linea-sepolia"
    );
}

#[test]
fn network_names_are_lowered_as_unicode_lowers_them() {
    assert_eq!(build_infura_url("HOLES\u{212a}Y", "k"), Ok("https://holesky.infura.io/v3/k".to_string()));
    assert_eq!(
        build_infura_url("ma\u{130}nnet", "k"),
        Err(RpcError::UnsupportedNetwork("ma\u{130}nnet".to_string()))
    );
}
