use vstd::prelude::*;

use crate::contract::{burn_err, burn_ok, burn_releases, mint_ok, mint_pulls, spec_attached_amount};
use crate::error::Error;
use crate::ledger::Ledger;
use crate::msg::{Coin, PendingTransfer};
use crate::rate::rate_mul_value;
use crate::state::Config;

verus! {

/// After a successful mint, a burn of the same amount by the mint's
/// recipient is owed success: the recipient's balance covers the amount and
/// both rate multiplications are already known exact and representable, so
/// no burn error condition holds.
pub proof fn lemma_mint_enables_burn(
    config: Config,
    pre: Ledger,
    mid: Ledger,
    sender: String,
    funds: Seq<Coin>,
    contract: String,
    recipient: String,
    amount: u128,
    mint_msgs: Seq<PendingTransfer>,
)
    requires
        mint_ok(config, pre, mid, sender, funds, contract, recipient, amount, mint_msgs),
    ensures
        mid.balance_of(recipient@) >= amount,
        forall|e: Error| !burn_err(Some(config), mid, recipient, amount, e),
{
}

/// Minting and then burning the same amount under the same rates returns
/// total supply and every holder's balance to their pre-mint values, and the
/// collateral movements cancel leg for leg: the native funds the mint
/// verified as attached equal the native amount the burn releases, and the
/// token amount the mint pulls equals the token amount the burn releases.
pub proof fn lemma_mint_then_burn_round_trip(
    config: Config,
    pre: Ledger,
    mid: Ledger,
    post: Ledger,
    sender: String,
    funds: Seq<Coin>,
    contract: String,
    recipient: String,
    amount: u128,
    mint_msgs: Seq<PendingTransfer>,
    burn_msgs: Seq<PendingTransfer>,
)
    requires
        mint_ok(config, pre, mid, sender, funds, contract, recipient, amount, mint_msgs),
        burn_ok(config, mid, post, recipient, amount, burn_msgs),
    ensures
        post.total_supply == pre.total_supply,
        forall|a: Seq<char>| post.balance_of(a) == pre.balance_of(a),
        mint_msgs == mint_pulls(
            config,
            sender,
            contract,
            rate_mul_value(amount, config.gohm_rate) as u128,
        ),
        burn_msgs == burn_releases(
            config,
            recipient,
            spec_attached_amount(funds, config.denom@) as u128,
            rate_mul_value(amount, config.gohm_rate) as u128,
        ),
{
    assert forall|a: Seq<char>| post.balance_of(a) == pre.balance_of(a) by {
        if a != recipient@ {
            assert(post.balance_of(a) == mid.balance_of(a));
            assert(mid.balance_of(a) == pre.balance_of(a));
        }
    }
}

} // verus!
