use vstd::prelude::*;
use vstd::string::StringExecFns;

verus! {

/// The networks that a client can be bound to.
#[derive(Clone, Copy, Debug, PartialEq, Eq, Structural)]
pub enum NetworkOption {
    /// An Anvil node running on this machine.
    Local,
    /// The Parasol test network.
    Parasol,
}

/// What a client needs to reach one network.
#[derive(Debug)]
pub struct NetworkProfile {
    pub endpoint: String,
    pub chain_id: u64,
    /// Where test funds can be had; empty where the network has no faucet.
    pub faucet_url: String,
}

pub open spec fn endpoint_of(n: NetworkOption) -> Seq<char> {
    match n {
        NetworkOption::Local => "http://localhost:8545"@,
        NetworkOption::Parasol => "https://rpc.parasol.sunscreen.tech"@,
    }
}

pub open spec fn chain_id_of(n: NetworkOption) -> u64 {
    match n {
        NetworkOption::Local => 31337,
        NetworkOption::Parasol => 574,
    }
}

pub open spec fn faucet_of(n: NetworkOption) -> Seq<char> {
    match n {
        NetworkOption::Local => ""@,
        NetworkOption::Parasol => "https://faucet.sunscreen.tech"@,
    }
}

impl NetworkProfile {
    /// The profile holds the table's row for `n`.
    pub open spec fn describes(&self, n: NetworkOption) -> bool {
        &&& self.endpoint@ == endpoint_of(n)
        &&& self.chain_id == chain_id_of(n)
        &&& self.faucet_url@ == faucet_of(n)
    }
}

impl NetworkOption {
    /// The endpoint, chain id and faucet of this network.
    pub fn profile(&self) -> (r: NetworkProfile)
        ensures
            r.describes(*self),
    {
        match self {
            NetworkOption::Local => NetworkProfile {
                endpoint: String::from_str("http://localhost:8545"),
                chain_id: 31337,
                faucet_url: String::from_str(""),
            },
            NetworkOption::Parasol => NetworkProfile {
                endpoint: String::from_str("https://rpc.parasol.sunscreen.tech"),
                chain_id: 574,
                faucet_url: String::from_str("https://faucet.sunscreen.tech"),
            },
        }
    }
}

} // verus!
