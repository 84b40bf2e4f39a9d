//! The networks that the service covers, and where their APIs are.

use vstd::prelude::*;
use crate::error::ApiFailure;
use crate::text::{lowercase, lowercase_of};

verus! {

/// The network that a class is deployed on.
#[derive(Debug, Clone, Copy, PartialEq, Eq, Structural)]
pub enum Network {
    Mainnet,
    Sepolia,
    Local,
    Custom,
}

/// The addresses configured for the custom network: each is absent where
/// the setting is not made.
#[derive(Debug, Clone, PartialEq, Eq)]
pub struct CustomEndpoints {
    pub internal_url: Option<String>,
    pub public_url: Option<String>,
}

/// A configured address, or the empty text where none is configured.
pub open spec fn configured_or_empty(setting: Option<String>) -> Seq<char> {
    match setting {
        Some(url) => url@,
        None => Seq::<char>::empty(),
    }
}

impl Network {
    /// The name of a network, in lowercase.
    pub open spec fn name(self) -> Seq<char> {
        match self {
            Network::Mainnet => "mainnet"@,
            Network::Sepolia => "sepolia"@,
            Network::Local => "local"@,
            Network::Custom => "custom"@,
        }
    }

    /// The network that a lowercase name stands for.
    pub open spec fn of_name(lower: Seq<char>) -> Option<Network> {
        if lower == "mainnet"@ {
            Some(Network::Mainnet)
        } else if lower == "sepolia"@ {
            Some(Network::Sepolia)
        } else if lower == "local"@ {
            Some(Network::Local)
        } else if lower == "custom"@ {
            Some(Network::Custom)
        } else {
            None
        }
    }

    /// The base address of the internal API.
    pub open spec fn internal_url(self, custom: CustomEndpoints) -> Seq<char> {
        match self {
            Network::Mainnet => "https://voyager.online"@,
            Network::Sepolia => "https://sepolia.voyager.online"@,
            Network::Local => "http://localhost:8899"@,
            Network::Custom => configured_or_empty(custom.internal_url),
        }
    }

    /// The base address of the public API.
    pub open spec fn public_url(self, custom: CustomEndpoints) -> Seq<char> {
        match self {
            Network::Mainnet => "https://api.voyager.online/beta"@,
            Network::Sepolia => "https://sepolia-api.voyager.online/beta"@,
            Network::Local => "http://localhost:30380"@,
            Network::Custom => configured_or_empty(custom.public_url),
        }
    }

    /// The name of the network, in lowercase.
    pub fn to_string(&self) -> (result: String)
        ensures
            result@ == self.name(),
    {
        match self {
            Network::Mainnet => "mainnet".to_owned(),
            Network::Sepolia => "sepolia".to_owned(),
            Network::Local => "local".to_owned(),
            Network::Custom => "custom".to_owned(),
        }
    }

    /// The network with the given name, which is taken as it stands:
    /// uppercase letters make it unknown.
    pub fn from_lowercase(lower: &str) -> (result: Option<Network>)
        ensures
            result == Self::of_name(lower@),
    {
        if same_text(lower, "mainnet") {
            Some(Network::Mainnet)
        } else if same_text(lower, "sepolia") {
            Some(Network::Sepolia)
        } else if same_text(lower, "local") {
            Some(Network::Local)
        } else if same_text(lower, "custom") {
            Some(Network::Custom)
        } else {
            None
        }
    }

    /// The network with the given name, whatever the case of its letters.
    /// An unknown name comes back in the failure as it was given.
    pub fn from_str(s: &str) -> (result: Result<Network, ApiFailure>)
        ensures
            match Self::of_name(lowercase_of(s@)) {
                Some(network) => result == Ok::<Network, ApiFailure>(network),
                None => result matches Err(ApiFailure::UnknownNetwork { name }) && name@ == s@,
            },
    {
        let lower = lowercase(s);
        match Self::from_lowercase(lower.as_str()) {
            Some(network) => Ok(network),
            None => Err(ApiFailure::UnknownNetwork { name: s.to_owned() }),
        }
    }
}

fn same_text(a: &str, b: &str) -> (result: bool)
    ensures
        result == (a@ == b@),
{
    a.to_owned() == b.to_owned()
}

fn url_or_empty(setting: &Option<String>) -> (result: String)
    ensures
        result@ == configured_or_empty(*setting),
{
    match setting {
        Some(url) => url.clone(),
        None => String::new(),
    }
}

/// The base addresses of a network's internal and public API, in this
/// order. Those of the custom network are the configured ones.
pub fn get_network_api(network: Network, custom: &CustomEndpoints) -> (result: (String, String))
    ensures
        result.0@ == network.internal_url(*custom),
        result.1@ == network.public_url(*custom),
{
    let url = match network {
        Network::Mainnet => "https://voyager.online".to_owned(),
        Network::Sepolia => "https://sepolia.voyager.online".to_owned(),
        Network::Local => "http://localhost:8899".to_owned(),
        Network::Custom => url_or_empty(&custom.internal_url),
    };
    let public_url = match network {
        Network::Mainnet => "https://api.voyager.online/beta".to_owned(),
        Network::Sepolia => "https://sepolia-api.voyager.online/beta".to_owned(),
        Network::Local => "http://localhost:30380".to_owned(),
        Network::Custom => url_or_empty(&custom.public_url),
    };
    (url, public_url)
}

/// A network's own name stands for that network, and for no other.
pub proof fn lemma_name_roundtrip(network: Network)
    ensures
        Network::of_name(network.name()) == Some(network),
{
    reveal_strlit("mainnet");
    reveal_strlit("sepolia");
    reveal_strlit("local");
    reveal_strlit("custom");
    assert("mainnet"@[0] == 'm');
    assert("sepolia"@[0] == 's');
    assert("local"@[0] == 'l');
    assert("custom"@[0] == 'c');
}

/// The addresses of the custom network are exactly the configured ones,
/// and empty where none is configured; those of the other networks do not
/// depend on the configuration.
pub proof fn lemma_custom_urls(network: Network, custom: CustomEndpoints, other: CustomEndpoints)
    ensures
        Network::Custom.internal_url(custom) == configured_or_empty(custom.internal_url),
        Network::Custom.public_url(custom) == configured_or_empty(custom.public_url),
        custom.internal_url is None ==> Network::Custom.internal_url(custom).len() == 0,
        custom.public_url is None ==> Network::Custom.public_url(custom).len() == 0,
        network != Network::Custom ==> network.internal_url(custom) == network.internal_url(other)
            && network.public_url(custom) == network.public_url(other),
{
}

} // verus!
