use vstd::prelude::*;

verus! {

/// The networks this library can follow.
#[derive(Debug, Clone, Copy, PartialEq, Eq, Structural)]
pub enum Chain {
    Mainnet,
    Testnet,
}

/// Numeric EVM chain id of a network.
pub open spec fn spec_chain_id(chain: Chain) -> u64 {
    match chain {
        Chain::Mainnet => 999,
        Chain::Testnet => 998,
    }
}

/// Metadata endpoint of a network.
pub open spec fn spec_info_url(chain: Chain) -> Seq<char> {
    match chain {
        Chain::Mainnet => "https://api.hyperliquid.xyz/info"@,
        Chain::Testnet => "https://api.hyperliquid-testnet.xyz/info"@,
    }
}

/// Human-readable name of a network.
pub open spec fn spec_chain_name(chain: Chain) -> Seq<char> {
    match chain {
        Chain::Mainnet => "Mainnet"@,
        Chain::Testnet => "Testnet"@,
    }
}

/// Numeric EVM chain id of a network.
pub fn chain_id(chain: Chain) -> (r: u64)
    ensures
        r == spec_chain_id(chain),
{
    match chain {
        Chain::Mainnet => 999,
        Chain::Testnet => 998,
    }
}

/// The URL that serves a network's spot-market metadata.
pub fn info_url(chain: Chain) -> (r: &'static str)
    ensures
        r@ == spec_info_url(chain),
{
    match chain {
        Chain::Mainnet => "https://api.hyperliquid.xyz/info",
        Chain::Testnet => "https://api.hyperliquid-testnet.xyz/info",
    }
}

impl Chain {
    /// The network's name, as shown to a user.
    pub fn name(&self) -> (r: &'static str)
        ensures
            r@ == spec_chain_name(*self),
    {
        match self {
            Chain::Mainnet => "Mainnet",
            Chain::Testnet => "Testnet",
        }
    }

    /// The network's name as an owned string.
    pub fn to_string(&self) -> (r: String)
        ensures
            r@ == spec_chain_name(*self),
    {
        let s = self.name();
        s.to_string()
    }
}

} // verus!
