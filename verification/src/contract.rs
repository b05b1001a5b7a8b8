use vstd::prelude::*;

use crate::error::Error;
use crate::ledger::Ledger;
use crate::msg::{Coin, Env, ExecuteMsg, InstantiateMsg, MessageInfo, PendingTransfer};
use crate::rate::{checked_rate_mul, product_is_integral, rate_mul_fits, rate_mul_value};
use crate::state::{Config, ConfigStore};

verus! {

/// The amount attached under `denom`: the first matching fund entry, or zero
/// when no entry names that denom.
pub open spec fn spec_attached_amount(funds: Seq<Coin>, denom: Seq<char>) -> u128
    decreases funds.len(),
{
    if funds.len() == 0 {
        0
    } else if funds[0].denom@ == denom {
        funds[0].amount
    } else {
        spec_attached_amount(funds.drop_first(), denom)
    }
}

/// The instructions a successful mint schedules: exactly one pull of the
/// token collateral into the contract's own holding, or nothing when the
/// computed token amount is zero.
pub open spec fn mint_pulls(config: Config, sender: String, contract: String, token_amount: u128) -> Seq<
    PendingTransfer,
> {
    if token_amount > 0 {
        seq![
            (PendingTransfer::TokenPull {
                token: config.gohm_token,
                owner: sender,
                recipient: contract,
                amount: token_amount,
            }),
        ]
    } else {
        Seq::empty()
    }
}

/// The instructions a successful burn schedules: the native release first,
/// then the token release, each omitted entirely when its amount is zero.
pub open spec fn burn_releases(config: Config, recipient: String, native_amount: u128, token_amount: u128) -> Seq<
    PendingTransfer,
> {
    let native = if native_amount > 0 {
        seq![
            (PendingTransfer::NativeRelease {
                denom: config.denom,
                recipient: recipient,
                amount: native_amount,
            }),
        ]
    } else {
        Seq::<PendingTransfer>::empty()
    };
    let token = if token_amount > 0 {
        seq![
            (PendingTransfer::TokenRelease {
                token: config.gohm_token,
                recipient: recipient,
                amount: token_amount,
            }),
        ]
    } else {
        Seq::<PendingTransfer>::empty()
    };
    native + token
}

/// Everything a successful mint guarantees: the attached native funds match
/// the rate-derived requirement exactly, supply rose by the minted amount,
/// the recipient was credited by exactly that amount, no other balance
/// moved, and the token-collateral pull is scheduled iff its amount is
/// nonzero.
pub open spec fn mint_ok(
    config: Config,
    pre: Ledger,
    post: Ledger,
    sender: String,
    funds: Seq<Coin>,
    contract: String,
    recipient: String,
    amount: u128,
    msgs: Seq<PendingTransfer>,
) -> bool {
    &&& funds.len() <= 1
    &&& product_is_integral(amount, config.denom_rate)
    &&& rate_mul_fits(amount, config.denom_rate)
    &&& spec_attached_amount(funds, config.denom@) == rate_mul_value(amount, config.denom_rate)
    &&& product_is_integral(amount, config.gohm_rate)
    &&& rate_mul_fits(amount, config.gohm_rate)
    &&& pre.minter@ == sender@
    &&& pre.total_supply + amount <= u128::MAX
    &&& (pre.cap matches Some(c) ==> pre.total_supply + amount <= c)
    &&& post.same_token_meta(pre)
    &&& post.total_supply == pre.total_supply + amount
    &&& post.balance_of(recipient@) == pre.balance_of(recipient@) + amount
    &&& (forall|a: Seq<char>| a != recipient@ ==> post.balance_of(a) == pre.balance_of(a))
    &&& msgs == mint_pulls(config, sender, contract, rate_mul_value(amount, config.gohm_rate) as u128)
}

/// Exactly when each mint error arises, following the order in which the
/// checks run; a failed mint never touches the ledger.
pub open spec fn mint_err(
    record: Option<Config>,
    pre: Ledger,
    sender: String,
    funds: Seq<Coin>,
    amount: u128,
    e: Error,
) -> bool {
    match record {
        None => e == Error::NotInitialized,
        Some(config) => if funds.len() > 1 {
            e == Error::MultiDenomFunds
        } else if !product_is_integral(amount, config.denom_rate) {
            e == Error::NonIntegralProduct
        } else if !rate_mul_fits(amount, config.denom_rate) {
            e == Error::ArithmeticOverflow
        } else if spec_attached_amount(funds, config.denom@) != rate_mul_value(
            amount,
            config.denom_rate,
        ) {
            e == Error::InvalidDenomAmount
        } else if !product_is_integral(amount, config.gohm_rate) {
            e == Error::NonIntegralProduct
        } else if !rate_mul_fits(amount, config.gohm_rate) {
            e == Error::ArithmeticOverflow
        } else if pre.minter@ != sender@ {
            e == Error::Unauthorized
        } else if pre.total_supply + amount > u128::MAX {
            e == Error::ArithmeticOverflow
        } else if pre.cap matches Some(c) && pre.total_supply + amount > c {
            e == Error::CannotExceedCap
        } else {
            false
        },
    }
}

/// Everything a successful burn guarantees: supply and the holder's balance
/// fell by the burned amount, no other balance moved, and the native
/// release precedes the token release, each omitted iff its amount is zero.
pub open spec fn burn_ok(
    config: Config,
    pre: Ledger,
    post: Ledger,
    sender: String,
    amount: u128,
    msgs: Seq<PendingTransfer>,
) -> bool {
    &&& product_is_integral(amount, config.denom_rate)
    &&& rate_mul_fits(amount, config.denom_rate)
    &&& product_is_integral(amount, config.gohm_rate)
    &&& rate_mul_fits(amount, config.gohm_rate)
    &&& pre.balance_of(sender@) >= amount
    &&& post.same_token_meta(pre)
    &&& post.total_supply == pre.total_supply - amount
    &&& post.balance_of(sender@) == pre.balance_of(sender@) - amount
    &&& (forall|a: Seq<char>| a != sender@ ==> post.balance_of(a) == pre.balance_of(a))
    &&& msgs == burn_releases(
        config,
        sender,
        rate_mul_value(amount, config.denom_rate) as u128,
        rate_mul_value(amount, config.gohm_rate) as u128,
    )
}

/// Exactly when each burn error arises, following the order in which the
/// checks run; a failed burn never touches the ledger.
pub open spec fn burn_err(
    record: Option<Config>,
    pre: Ledger,
    sender: String,
    amount: u128,
    e: Error,
) -> bool {
    match record {
        None => e == Error::NotInitialized,
        Some(config) => if !product_is_integral(amount, config.denom_rate) {
            e == Error::NonIntegralProduct
        } else if !rate_mul_fits(amount, config.denom_rate) {
            e == Error::ArithmeticOverflow
        } else if !product_is_integral(amount, config.gohm_rate) {
            e == Error::NonIntegralProduct
        } else if !rate_mul_fits(amount, config.gohm_rate) {
            e == Error::ArithmeticOverflow
        } else if pre.balance_of(sender@) < amount {
            e == Error::InsufficientBalance
        } else {
            false
        },
    }
}

/// Setup: record the rate configuration once and start an empty ledger with
/// the given metadata and mint authority.
pub fn instantiate(msg: InstantiateMsg) -> (r: (ConfigStore, Ledger))
    ensures
        r.0.record == Some(
            (Config {
                gohm_token: msg.gohm_token,
                denom: msg.denom,
                gohm_rate: msg.gohm_rate,
                denom_rate: msg.denom_rate,
            }),
        ),
        r.1.well_formed(),
        r.1.name == msg.name,
        r.1.symbol == msg.symbol,
        r.1.decimals == msg.decimals,
        r.1.minter == msg.minter,
        r.1.cap is None,
        r.1.total_supply == 0,
        forall|a: Seq<char>| r.1.balance_of(a) == 0,
{
    let InstantiateMsg { name, symbol, decimals, minter, gohm_token, denom, gohm_rate, denom_rate } =
        msg;
    let mut store = ConfigStore::new();
    store.save(Config { gohm_token, denom, gohm_rate, denom_rate });
    let ledger = Ledger::new(name, symbol, decimals, minter, None);
    (store, ledger)
}

/// Mint path of the conversion engine: validate the attached native funds
/// against the configured rate, mint the receipt amount, and schedule the
/// token-collateral pull. Either the ledger mutation and the instruction
/// list are both produced, or the ledger is untouched and an error names
/// exactly what failed.
pub fn try_mint(
    store: &ConfigStore,
    ledger: &mut Ledger,
    env: &Env,
    info: &MessageInfo,
    recipient: String,
    amount: u128,
) -> (r: Result<Vec<PendingTransfer>, Error>)
    requires
        old(ledger).well_formed(),
    ensures
        final(ledger).well_formed(),
        match r {
            Ok(msgs) => store.record matches Some(config) && mint_ok(
                config,
                *old(ledger),
                *final(ledger),
                info.sender,
                info.funds@,
                env.contract_address,
                recipient,
                amount,
                msgs@,
            ),
            Err(e) => *final(ledger) == *old(ledger) && mint_err(
                store.record,
                *old(ledger),
                info.sender,
                info.funds@,
                amount,
                e,
            ),
        },
{
    let config = match store.load() {
        Ok(config) => config,
        Err(e) => return Err(e),
    };
    if info.funds.len() > 1 {
        return Err(Error::MultiDenomFunds);
    }
    let denom_amount: u128 = if info.funds.len() == 1 {
        if info.funds[0].denom == config.denom {
            info.funds[0].amount
        } else {
            proof {
                assert(spec_attached_amount(info.funds@.drop_first(), config.denom@) == 0);
            }
            0
        }
    } else {
        0
    };
    let required_native: u128 = match checked_rate_mul(amount, config.denom_rate) {
        Ok(v) => v,
        Err(e) => return Err(e),
    };
    if denom_amount != required_native {
        return Err(Error::InvalidDenomAmount);
    }
    let gohm_amount: u128 = match checked_rate_mul(amount, config.gohm_rate) {
        Ok(v) => v,
        Err(e) => return Err(e),
    };
    match ledger.mint(&info.sender, recipient, amount) {
        Ok(()) => {},
        Err(e) => return Err(e),
    }
    let mut msgs: Vec<PendingTransfer> = Vec::new();
    if gohm_amount > 0 {
        msgs.push(
            PendingTransfer::TokenPull {
                token: config.gohm_token.clone(),
                owner: info.sender.clone(),
                recipient: env.contract_address.clone(),
                amount: gohm_amount,
            },
        );
    }
    proof {
        assert(msgs@ =~= mint_pulls(
            *config,
            info.sender,
            env.contract_address,
            rate_mul_value(amount, config.gohm_rate) as u128,
        ));
    }
    Ok(msgs)
}

/// Burn path of the conversion engine: burn the receipt amount from the
/// caller's own holding and schedule the proportional release of both
/// backing assets, native first, then token. Either the ledger mutation and
/// the instruction list are both produced, or the ledger is untouched and an
/// error names exactly what failed.
pub fn try_burn(store: &ConfigStore, ledger: &mut Ledger, info: &MessageInfo, amount: u128) -> (r:
    Result<Vec<PendingTransfer>, Error>)
    requires
        old(ledger).well_formed(),
    ensures
        final(ledger).well_formed(),
        match r {
            Ok(msgs) => store.record matches Some(config) && burn_ok(
                config,
                *old(ledger),
                *final(ledger),
                info.sender,
                amount,
                msgs@,
            ),
            Err(e) => *final(ledger) == *old(ledger) && burn_err(
                store.record,
                *old(ledger),
                info.sender,
                amount,
                e,
            ),
        },
{
    let config = match store.load() {
        Ok(config) => config,
        Err(e) => return Err(e),
    };
    let denom_amount: u128 = match checked_rate_mul(amount, config.denom_rate) {
        Ok(v) => v,
        Err(e) => return Err(e),
    };
    let gohm_amount: u128 = match checked_rate_mul(amount, config.gohm_rate) {
        Ok(v) => v,
        Err(e) => return Err(e),
    };
    match ledger.burn(&info.sender, amount) {
        Ok(()) => {},
        Err(e) => return Err(e),
    }
    let mut msgs: Vec<PendingTransfer> = Vec::new();
    if denom_amount > 0 {
        msgs.push(
            PendingTransfer::NativeRelease {
                denom: config.denom.clone(),
                recipient: info.sender.clone(),
                amount: denom_amount,
            },
        );
    }
    if gohm_amount > 0 {
        msgs.push(
            PendingTransfer::TokenRelease {
                token: config.gohm_token.clone(),
                recipient: info.sender.clone(),
                amount: gohm_amount,
            },
        );
    }
    proof {
        assert(msgs@ =~= burn_releases(
            *config,
            info.sender,
            rate_mul_value(amount, config.denom_rate) as u128,
            rate_mul_value(amount, config.gohm_rate) as u128,
        ));
    }
    Ok(msgs)
}

/// Dispatch over the two operations this engine owns. Every other operation
/// of the standard token set belongs to the generic ledger collaborator and
/// passes through the host untouched.
pub fn execute(
    store: &ConfigStore,
    ledger: &mut Ledger,
    env: &Env,
    info: &MessageInfo,
    msg: ExecuteMsg,
) -> (r: Result<Vec<PendingTransfer>, Error>)
    requires
        old(ledger).well_formed(),
    ensures
        final(ledger).well_formed(),
        match msg {
            ExecuteMsg::Mint { recipient, amount } => match r {
                Ok(msgs) => store.record matches Some(config) && mint_ok(
                    config,
                    *old(ledger),
                    *final(ledger),
                    info.sender,
                    info.funds@,
                    env.contract_address,
                    recipient,
                    amount,
                    msgs@,
                ),
                Err(e) => *final(ledger) == *old(ledger) && mint_err(
                    store.record,
                    *old(ledger),
                    info.sender,
                    info.funds@,
                    amount,
                    e,
                ),
            },
            ExecuteMsg::Burn { amount } => match r {
                Ok(msgs) => store.record matches Some(config) && burn_ok(
                    config,
                    *old(ledger),
                    *final(ledger),
                    info.sender,
                    amount,
                    msgs@,
                ),
                Err(e) => *final(ledger) == *old(ledger) && burn_err(
                    store.record,
                    *old(ledger),
                    info.sender,
                    amount,
                    e,
                ),
            },
        },
{
    match msg {
        ExecuteMsg::Mint { recipient, amount } => try_mint(
            store,
            ledger,
            env,
            info,
            recipient,
            amount,
        ),
        ExecuteMsg::Burn { amount } => try_burn(store, ledger, info, amount),
    }
}

} // verus!
