//! Where to reach the chain: an endpoint given outright, or an Infura
//! endpoint made from a network's name and an API key.

use crate::text::{join_text, lowercase, same_text, to_lowercase};
use vstd::prelude::*;
use vstd::string::StringExecFns;

verus! {

/// Why no endpoint could be named.
#[derive(Debug, Clone, PartialEq, Eq)]
pub enum RpcError {
    /// The network's name is none that Infura serves; holds the name as given.
    UnsupportedNetwork(String),
    /// Neither an endpoint nor a network with a key was given.
    MissingEndpoint,
    /// An endpoint was given outright together with a network or a key: the
    /// two ways to name an endpoint exclude each other.
    ConflictingEndpoints,
}

/// The first label of the Infura host that serves the network `name`, which
/// is written in lower case.
pub open spec fn infura_host(name: Seq<char>) -> Option<Seq<char>> {
    if name == "mainnet"@ || name == "ethereum"@ {
        Some("mainnet"@)
    } else if name == "sepolia"@ {
        Some("sepolia"@)
    } else if name == "goerli"@ {
        Some("goerli"@)
    } else if name == "holesky"@ {
        Some("holesky"@)
    } else if name == "polygon"@ || name == "polygon-mainnet"@ {
        Some("polygon-mainnet"@)
    } else if name == "polygon-amoy"@ {
        Some("polygon-amoy"@)
    } else if name == "arbitrum"@ || name == "arbitrum-mainnet"@ {
        Some("arbitrum-mainnet"@)
    } else if name == "arbitrum-sepolia"@ {
        Some("arbitrum-sepolia"@)
    } else if name == "optimism"@ || name == "optimism-mainnet"@ {
        Some("optimism-mainnet"@)
    } else if name == "optimism-sepolia"@ {
        Some("optimism-sepolia"@)
    } else if name == "base"@ || name == "base-mainnet"@ {
        Some("base-mainnet"@)
    } else if name == "base-sepolia"@ {
        Some("base-sepolia"@)
    } else if name == "avalanche"@ || name == "avalanche-mainnet"@ || name == "avalanche-c-chain"@ {
        Some("avalanche-mainnet"@)
    } else if name == "avalanche-fuji"@ {
        Some("avalanche-fuji"@)
    } else if name == "linea"@ || name == "linea-mainnet"@ {
        Some("linea-mainnet"@)
    } else if name == "linea-sepolia"@ {
        Some("linea-sepolia"@)
    } else {
        None
    }
}

/// The address of the Infura endpoint on `host` for the key `api_key`.
pub open spec fn infura_url(host: Seq<char>, api_key: Seq<char>) -> Seq<char> {
    "https://"@ + host + ".infura.io/v3/"@ + api_key
}

fn host_for(name: &str) -> (r: Option<&'static str>)
    ensures
        match infura_host(name@) {
            Some(host) => r matches Some(h) && h@ == host,
            None => r is None,
        },
{
    if same_text(name, "mainnet") || same_text(name, "ethereum") {
        Some("mainnet")
    } else if same_text(name, "sepolia") {
        Some("sepolia")
    } else if same_text(name, "goerli") {
        Some("goerli")
    } else if same_text(name, "holesky") {
        Some("holesky")
    } else if same_text(name, "polygon") || same_text(name, "polygon-mainnet") {
        Some("polygon-mainnet")
    } else if same_text(name, "polygon-amoy") {
        Some("polygon-amoy")
    } else if same_text(name, "arbitrum") || same_text(name, "arbitrum-mainnet") {
        Some("arbitrum-mainnet")
    } else if same_text(name, "arbitrum-sepolia") {
        Some("arbitrum-sepolia")
    } else if same_text(name, "optimism") || same_text(name, "optimism-mainnet") {
        Some("optimism-mainnet")
    } else if same_text(name, "optimism-sepolia") {
        Some("optimism-sepolia")
    } else if same_text(name, "base") || same_text(name, "base-mainnet") {
        Some("base-mainnet")
    } else if same_text(name, "base-sepolia") {
        Some("base-sepolia")
    } else if same_text(name, "avalanche") || same_text(name, "avalanche-mainnet") || same_text(
        name,
        "avalanche-c-chain",
    ) {
        Some("avalanche-mainnet")
    } else if same_text(name, "avalanche-fuji") {
        Some("avalanche-fuji")
    } else if same_text(name, "linea") || same_text(name, "linea-mainnet") {
        Some("linea-mainnet")
    } else if same_text(name, "linea-sepolia") {
        Some("linea-sepolia")
    } else {
        None
    }
}

/// The Infura endpoint for a network and an API key. The network's name is
/// read without regard to case; a name that Infura does not serve is
/// refused, and the error holds it as it was given.
pub fn build_infura_url(network: &str, api_key: &str) -> (r: Result<String, RpcError>)
    ensures
        match infura_host(lowercase(network@)) {
            Some(host) => r matches Ok(url) && url@ == infura_url(host, api_key@),
            None => r matches Err(RpcError::UnsupportedNetwork(name)) && name@ == network@,
        },
{
    let lower = to_lowercase(network);
    match host_for(lower.as_str()) {
        Some(host) => {
            let url = join_text("https://", host).concat(".infura.io/v3/").concat(api_key);
            Ok(url)
        },
        None => Err(RpcError::UnsupportedNetwork(String::from_str(network))),
    }
}

/// The endpoint to use. It is named in one of two ways that exclude each
/// other: outright, or by a network and a key, which give the Infura
/// endpoint. An endpoint given outright beside a network or a key is refused,
/// and so is a network without a key, a key without a network, and nothing
/// at all.
pub fn resolve_rpc_url(
    rpc_url: Option<String>,
    network: Option<String>,
    infura_key: Option<String>,
) -> (r: Result<String, RpcError>)
    ensures
        rpc_url is Some && (network is Some || infura_key is Some) ==> r == Err::<String, RpcError>(
            RpcError::ConflictingEndpoints,
        ),
        rpc_url is Some && network is None && infura_key is None ==> r == Ok::<String, RpcError>(
            rpc_url->0,
        ),
        rpc_url is None && (network is None || infura_key is None) ==> r == Err::<String, RpcError>(
            RpcError::MissingEndpoint,
        ),
        rpc_url is None && network is Some && infura_key is Some ==> match infura_host(
            lowercase(network->0@),
        ) {
            Some(host) => r matches Ok(url) && url@ == infura_url(host, infura_key->0@),
            None => r matches Err(RpcError::UnsupportedNetwork(name)) && name@ == network->0@,
        },
{
    match (rpc_url, network, infura_key) {
        (Some(url), None, None) => Ok(url),
        (Some(_), _, _) => Err(RpcError::ConflictingEndpoints),
        (None, Some(net), Some(key)) => build_infura_url(net.as_str(), key.as_str()),
        (None, _, _) => Err(RpcError::MissingEndpoint),
    }
}

impl RpcError {
    /// The text of [`RpcError::message`].
    pub open spec fn message_text(self) -> Seq<char> {
        match self {
            RpcError::UnsupportedNetwork(name) => "Unsupported network: '"@ + name@
                + "'. Supported networks: mainnet, sepolia, goerli, holesky, polygon, polygon-amoy, arbitrum, arbitrum-sepolia, optimism, optimism-sepolia, base, base-sepolia, avalanche, avalanche-fuji, linea, linea-sepolia"@,
            RpcError::MissingEndpoint => "Must specify either --rpc-url OR (--network and --infura-key)"@,
            RpcError::ConflictingEndpoints => "--rpc-url cannot be used with --network or --infura-key"@,
        }
    }

    /// What went wrong, in words.
    pub fn message(&self) -> (r: String)
        ensures
            r@ == self.message_text(),
    {
        match self {
            RpcError::UnsupportedNetwork(name) => join_text("Unsupported network: '", name.as_str()).concat(
                "'. Supported networks: mainnet, sepolia, goerli, holesky, polygon, polygon-amoy, arbitrum, arbitrum-sepolia, optimism, optimism-sepolia, base, base-sepolia, avalanche, avalanche-fuji, linea, linea-sepolia",
            ),
            RpcError::MissingEndpoint => String::from_str(
                "Must specify either --rpc-url OR (--network and --infura-key)",
            ),
            RpcError::ConflictingEndpoints => String::from_str(
                "--rpc-url cannot be used with --network or --infura-key",
            ),
        }
    }
}

} // verus!
