//! The Bitcoin networks that a device can be asked to work on.

use vstd::prelude::*;

verus! {

#[derive(Copy, Clone, Debug, PartialEq, Eq, Structural)]
pub enum Network {
    /// Mainnet.
    Bitcoin,
    Testnet,
    Testnet4,
    Signet,
    Regtest,
}

impl Network {
    pub open spec fn spec_is_mainnet(self) -> bool {
        self is Bitcoin
    }

    /// Whether this is the main network. Devices tell only mainnet from the
    /// rest.
    #[verifier::when_used_as_spec(spec_is_mainnet)]
    pub fn is_mainnet(self) -> (b: bool)
        ensures
            b == self.spec_is_mainnet(),
    {
        match self {
            Network::Bitcoin => true,
            _ => false,
        }
    }
}

} // verus!
