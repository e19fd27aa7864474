//! What the commands name on the exchange: chains, tokens and balances.
use crate::address::Address;
use vstd::prelude::*;

verus! {

/// The chain that a command works on.
#[derive(Clone, Copy, Debug, PartialEq, Eq, Structural)]
pub enum Chain {
    Mainnet,
    Testnet,
}

/// The part of the signing arguments that the commands decide by.
#[derive(Clone, Copy, Debug, PartialEq, Eq, Structural)]
pub struct SignerArgs {
    /// Chain to sign for and to query
    pub chain: Chain,
}

/// A token of the spot market.
#[derive(Debug, PartialEq, Eq)]
pub struct SpotToken {
    pub name: String,
    pub index: u32,
    pub token_id: [u8; 16],
    pub evm_contract: Option<Address>,
    pub cross_chain_address: Option<Address>,
    pub sz_decimals: i64,
    pub wei_decimals: i64,
    pub evm_extra_decimals: i64,
}

/// A balance that assets are sent from or to.
#[derive(Debug, PartialEq, Eq)]
pub enum AssetTarget {
    /// The perpetuals balance
    Perp,
    /// The spot balance
    Spot,
    /// The balance on a HIP-3 DEX
    Dex(String),
}

impl Clone for AssetTarget {
    fn clone(&self) -> (r: Self)
        ensures
            r == *self,
    {
        match self {
            AssetTarget::Perp => AssetTarget::Perp,
            AssetTarget::Spot => AssetTarget::Spot,
            AssetTarget::Dex(name) => AssetTarget::Dex(name.clone()),
        }
    }
}

impl AssetTarget {
    /// The location argument that names the balance.
    pub open spec fn spelled(self) -> Seq<char> {
        match self {
            AssetTarget::Perp => "perp"@,
            AssetTarget::Spot => "spot"@,
            AssetTarget::Dex(name) => name@,
        }
    }

    /// The balance that a location argument names: "perp", "spot", or a HIP-3 DEX name.
    pub fn named(name: &str) -> (r: AssetTarget)
        ensures
            r.spelled() == name@,
            r is Perp <==> name@ == "perp"@,
            r is Spot <==> name@ == "spot"@,
            r matches AssetTarget::Dex(dex) ==> dex@ == name@,
    {
        proof {
            reveal_strlit("perp");
            reveal_strlit("spot");
            assert("perp"@[0] != "spot"@[0]);
        }
        let name = name.to_owned();
        if name == "perp".to_owned() {
            AssetTarget::Perp
        } else if name == "spot".to_owned() {
            AssetTarget::Spot
        } else {
            AssetTarget::Dex(name)
        }
    }
}

/// "perp" and "spot" name the two balances of those names, and every other location
/// argument names the DEX that it spells.
pub proof fn law_locations_are_spelled_apart(target: AssetTarget)
    ensures
        target is Perp ==> target.spelled() == "perp"@,
        target is Spot ==> target.spelled() == "spot"@,
        target matches AssetTarget::Dex(name) ==> target.spelled() == name@,
{
}

} // verus!
