//! The fixed set of selectable networks: Ethereum, Polygon and Optimism,
//! each with its chain identifier and the token contract whose balance
//! the tool reports. The table is closed; no other network is reachable.

use vstd::prelude::*;
use vstd::string::*;
use crate::address::Address;

verus! {

/// A selectable network: its chain identifier and its token contract.
pub enum Network {
    Ethereum(u8, Address),
    Polygon(u8, Address),
    Optimism(u8, Address),
}

/// The token contract on Ethereum mainnet (chain 1).
pub open spec fn eth_contract_bytes() -> Seq<u8> {
    seq![
        0xa0u8,
        0xb8,
        0x69,
        0x91,
        0xc6,
        0x21,
        0x8b,
        0x36,
        0xc1,
        0xd1,
        0x9d,
        0x4a,
        0x2e,
        0x9e,
        0xb0,
        0xce,
        0x36,
        0x06,
        0xeb,
        0x48,
    ]
}

/// The token contract on Polygon (chain 137).
pub open spec fn polygon_contract_bytes() -> Seq<u8> {
    seq![
        0x3cu8,
        0x49,
        0x9c,
        0x54,
        0x2c,
        0xef,
        0x5e,
        0x38,
        0x11,
        0xe1,
        0x19,
        0x2c,
        0xe7,
        0x0d,
        0x8c,
        0xc0,
        0x3d,
        0x5c,
        0x33,
        0x59,
    ]
}

/// The token contract on Optimism (chain 10).
pub open spec fn optimism_contract_bytes() -> Seq<u8> {
    seq![
        0x0bu8,
        0x2c,
        0x63,
        0x9c,
        0x53,
        0x38,
        0x13,
        0xf4,
        0xaa,
        0x9d,
        0x78,
        0x37,
        0xca,
        0xf6,
        0x26,
        0x53,
        0xd0,
        0x97,
        0xff,
        0x85,
    ]
}

/// The chain identifier of the network at a given option index.
pub open spec fn chain_id_at(i: int) -> u8 {
    if i == 0 {
        1
    } else if i == 1 {
        137
    } else {
        10
    }
}

/// The token-contract bytes of the network at a given option index.
pub open spec fn contract_bytes_at(i: int) -> Seq<u8> {
    if i == 0 {
        eth_contract_bytes()
    } else if i == 1 {
        polygon_contract_bytes()
    } else {
        optimism_contract_bytes()
    }
}

impl Network {
    /// A well-formed network is one row of the fixed table.
    pub open spec fn wf(&self) -> bool {
        match self {
            Network::Ethereum(c, a) => *c == 1 && a.wf() && a.bytes@ == eth_contract_bytes(),
            Network::Polygon(c, a) => *c == 137 && a.wf() && a.bytes@ == polygon_contract_bytes(),
            Network::Optimism(c, a) => *c == 10 && a.wf() && a.bytes@ == optimism_contract_bytes(),
        }
    }

    /// The chain identifier this network carries.
    pub open spec fn spec_chain_id(&self) -> u8 {
        match self {
            Network::Ethereum(c, _) => *c,
            Network::Polygon(c, _) => *c,
            Network::Optimism(c, _) => *c,
        }
    }

    /// The token-contract bytes this network carries.
    pub open spec fn spec_contract_bytes(&self) -> Seq<u8> {
        match self {
            Network::Ethereum(_, a) => a.bytes@,
            Network::Polygon(_, a) => a.bytes@,
            Network::Optimism(_, a) => a.bytes@,
        }
    }

    /// The chain identifier this network carries.
    pub fn chain_id(&self) -> (r: u8)
        ensures
            r == self.spec_chain_id(),
    {
        match self {
            Network::Ethereum(c, _) => *c,
            Network::Polygon(c, _) => *c,
            Network::Optimism(c, _) => *c,
        }
    }

    /// The token contract this network carries.
    pub fn contract(&self) -> (r: &Address)
        ensures
            r.bytes@ == self.spec_contract_bytes(),
    {
        match self {
            Network::Ethereum(_, a) => a,
            Network::Polygon(_, a) => a,
            Network::Optimism(_, a) => a,
        }
    }
}

/// The network at a given option index of the fixed three-entry list:
/// index 0 is Ethereum, 1 is Polygon, 2 is Optimism.
pub fn network_at(index: usize) -> (r: Network)
    requires
        index < 3,
    ensures
        r.wf(),
        r.spec_chain_id() == chain_id_at(index as int),
        r.spec_contract_bytes() == contract_bytes_at(index as int),
        index == 0 ==> r is Ethereum,
        index == 1 ==> r is Polygon,
        index == 2 ==> r is Optimism,
{
    if index == 0 {
        let bytes: Vec<u8> = vec![
            0xa0u8,
            0xb8,
            0x69,
            0x91,
            0xc6,
            0x21,
            0x8b,
            0x36,
            0xc1,
            0xd1,
            0x9d,
            0x4a,
            0x2e,
            0x9e,
            0xb0,
            0xce,
            0x36,
            0x06,
            0xeb,
            0x48,
        ];
        proof {
            assert(bytes@ =~= eth_contract_bytes());
        }
        Network::Ethereum(1, Address { bytes })
    } else if index == 1 {
        let bytes: Vec<u8> = vec![
            0x3cu8,
            0x49,
            0x9c,
            0x54,
            0x2c,
            0xef,
            0x5e,
            0x38,
            0x11,
            0xe1,
            0x19,
            0x2c,
            0xe7,
            0x0d,
            0x8c,
            0xc0,
            0x3d,
            0x5c,
            0x33,
            0x59,
        ];
        proof {
            assert(bytes@ =~= polygon_contract_bytes());
        }
        Network::Polygon(137, Address { bytes })
    } else {
        let bytes: Vec<u8> = vec![
            0x0bu8,
            0x2c,
            0x63,
            0x9c,
            0x53,
            0x38,
            0x13,
            0xf4,
            0xaa,
            0x9d,
            0x78,
            0x37,
            0xca,
            0xf6,
            0x26,
            0x53,
            0xd0,
            0x97,
            0xff,
            0x85,
        ];
        proof {
            assert(bytes@ =~= optimism_contract_bytes());
        }
        Network::Optimism(10, Address { bytes })
    }
}

/// The endpoint host name for a chain of the fixed table.
pub open spec fn endpoint_host_spec(chain_id: u8) -> Seq<char> {
    if chain_id == 1 {
        "mainnet"@
    } else if chain_id == 137 {
        "polygon-mainnet"@
    } else {
        "optimism-mainnet"@
    }
}

/// The endpoint host name for a chain of the fixed table. The table is
/// closed, so any other chain identifier is a defect in the caller.
pub fn endpoint_host(chain_id: u8) -> (r: &'static str)
    requires
        chain_id == 1 || chain_id == 137 || chain_id == 10,
    ensures
        r@ == endpoint_host_spec(chain_id),
{
    if chain_id == 1 {
        "mainnet"
    } else if chain_id == 137 {
        "polygon-mainnet"
    } else {
        "optimism-mainnet"
    }
}

/// The full endpoint URL for a chain, given the caller's API key.
pub open spec fn endpoint_url_spec(chain_id: u8, key: Seq<char>) -> Seq<char> {
    "https://"@ + endpoint_host_spec(chain_id) + ".infura.io/v3/"@ + key
}

/// Builds the endpoint URL for a chain of the fixed table. The API key is
/// resolved by the caller, once, before the interaction loop starts.
pub fn endpoint_url(chain_id: u8, api_key: &str) -> (r: String)
    requires
        chain_id == 1 || chain_id == 137 || chain_id == 10,
    ensures
        r@ == endpoint_url_spec(chain_id, api_key@),
{
    let mut out: String = "https://".to_owned();
    out.append(endpoint_host(chain_id));
    out.append(".infura.io/v3/");
    out.append(api_key);
    out
}

} // verus!
