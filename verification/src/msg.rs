use vstd::prelude::*;

use crate::rate::Rate;

verus! {

/// One native fund entry attached to an inbound request.
#[derive(Clone, Debug)]
pub struct Coin {
    pub denom: String,
    pub amount: u128,
}

/// Who sent the inbound request and which native funds came with it.
#[derive(Clone, Debug)]
pub struct MessageInfo {
    pub sender: String,
    pub funds: Vec<Coin>,
}

/// The execution context the host supplies: the contract's own address,
/// which receives the token collateral pulled in by a mint.
#[derive(Clone, Debug)]
pub struct Env {
    pub contract_address: String,
}

/// The setup message: token metadata, the mint authority and the rate
/// configuration.
#[derive(Clone, Debug)]
pub struct InstantiateMsg {
    pub name: String,
    pub symbol: String,
    pub decimals: u8,
    pub minter: String,
    pub gohm_token: String,
    pub denom: String,
    pub gohm_rate: Rate,
    pub denom_rate: Rate,
}

/// The two operations this engine owns. Every other operation of the
/// standard token set passes through to the generic ledger untouched.
#[derive(Clone, Debug)]
pub enum ExecuteMsg {
    Mint { recipient: String, amount: u128 },
    Burn { amount: u128 },
}

/// An outbound transfer instruction produced by a mint or a burn. The engine
/// only names an asset, an amount and a recipient; dispatching the
/// instruction is the host's responsibility.
#[derive(Clone, Debug)]
pub enum PendingTransfer {
    /// Pull token collateral from `owner` into `recipient`, the contract's
    /// own holding.
    TokenPull { token: String, owner: String, recipient: String, amount: u128 },
    /// Release native collateral to `recipient`.
    NativeRelease { denom: String, recipient: String, amount: u128 },
    /// Release token collateral to `recipient`.
    TokenRelease { token: String, recipient: String, amount: u128 },
}

impl PartialEq for PendingTransfer {
    fn eq(&self, other: &PendingTransfer) -> (r: bool) {
        match (self, other) {
            (
                PendingTransfer::TokenPull { token: t1, owner: o1, recipient: r1, amount: a1 },
                PendingTransfer::TokenPull { token: t2, owner: o2, recipient: r2, amount: a2 },
            ) => *t1 == *t2 && *o1 == *o2 && *r1 == *r2 && *a1 == *a2,
            (
                PendingTransfer::NativeRelease { denom: d1, recipient: r1, amount: a1 },
                PendingTransfer::NativeRelease { denom: d2, recipient: r2, amount: a2 },
            ) => *d1 == *d2 && *r1 == *r2 && *a1 == *a2,
            (
                PendingTransfer::TokenRelease { token: t1, recipient: r1, amount: a1 },
                PendingTransfer::TokenRelease { token: t2, recipient: r2, amount: a2 },
            ) => *t1 == *t2 && *r1 == *r2 && *a1 == *a2,
            _ => false,
        }
    }
}

impl vstd::std_specs::cmp::PartialEqSpecImpl for PendingTransfer {
    open spec fn obeys_eq_spec() -> bool {
        true
    }

    open spec fn eq_spec(&self, other: &PendingTransfer) -> bool {
        match (self, other) {
            (
                PendingTransfer::TokenPull { token: t1, owner: o1, recipient: r1, amount: a1 },
                PendingTransfer::TokenPull { token: t2, owner: o2, recipient: r2, amount: a2 },
            ) => t1@ == t2@ && o1@ == o2@ && r1@ == r2@ && a1 == a2,
            (
                PendingTransfer::NativeRelease { denom: d1, recipient: r1, amount: a1 },
                PendingTransfer::NativeRelease { denom: d2, recipient: r2, amount: a2 },
            ) => d1@ == d2@ && r1@ == r2@ && a1 == a2,
            (
                PendingTransfer::TokenRelease { token: t1, recipient: r1, amount: a1 },
                PendingTransfer::TokenRelease { token: t2, recipient: r2, amount: a2 },
            ) => t1@ == t2@ && r1@ == r2@ && a1 == a2,
            _ => false,
        }
    }
}

} // verus!
