use reward_token::contract::{execute, instantiate};
use reward_token::error::Error;
use reward_token::ledger::Ledger;
use reward_token::msg::{Coin, Env, ExecuteMsg, InstantiateMsg, MessageInfo, PendingTransfer};
use reward_token::rate::{checked_rate_mul, Rate};
use reward_token::state::ConfigStore;

const MOCK_CONTRACT_ADDR: &str = "cosmos2contract";

fn mock_env() -> Env {
    Env { contract_address: MOCK_CONTRACT_ADDR.to_string() }
}

fn mock_info(sender: &str, funds: Vec<Coin>) -> MessageInfo {
    MessageInfo { sender: sender.to_string(), funds }
}

fn coin(denom: &str, amount: u128) -> Coin {
    Coin { denom: denom.to_string(), amount }
}

fn mul(amount: u128, rate: Rate) -> u128 {
    checked_rate_mul(amount, rate).unwrap()
}

// helper
fn initialize_reward_token(
    gohm_rate: Option<Rate>,
    denom_rate: Option<Rate>,
) -> (ConfigStore, Ledger, Rate, Rate) {
    let gohm_rate = match gohm_rate {
        Some(r) => r,
        None => Rate::percent(1000),
    };
    let denom_rate = match denom_rate {
        Some(r) => r,
        None => Rate::percent(10),
    };

    let msg = InstantiateMsg {
        name: "gOHM reward token".to_string(),
        symbol: "rgOHM".to_string(),
        decimals: 6u8,
        minter: "minter".to_string(),
        gohm_token: "gohm_token".to_string(),
        denom: "uluna".to_string(),
        gohm_rate,
        denom_rate,
    };

    let (store, ledger) = instantiate(msg);
    (store, ledger, gohm_rate, denom_rate)
}

fn mint_token(
    store: &ConfigStore,
    ledger: &mut Ledger,
    gohm_rate: Rate,
    denom_rate: Rate,
    amount: u128,
    recipient: String,
) -> (Vec<PendingTransfer>, u128, u128) {
    let msg = ExecuteMsg::Mint { recipient, amount };
    let info = mock_info("minter", vec![coin("uluna", mul(amount, denom_rate))]);
    let res = execute(store, ledger, &mock_env(), &info, msg).unwrap();
    (res, mul(amount, gohm_rate), mul(amount, denom_rate))
}

fn burn_token(
    store: &ConfigStore,
    ledger: &mut Ledger,
    amount: u128,
    sender: String,
) -> Vec<PendingTransfer> {
    let msg = ExecuteMsg::Burn { amount };
    let info = mock_info(&sender, vec![]);
    execute(store, ledger, &mock_env(), &info, msg).unwrap()
}

#[test]
fn proper_initialization() {
    let msg = InstantiateMsg {
        name: "gOHM reward token".to_string(),
        symbol: "rgOHM".to_string(),
        decimals: 6u8,
        minter: "minter".to_string(),
        gohm_token: "gohm_token".to_string(),
        denom: "uluna".to_string(),
        gohm_rate: Rate::percent(1000),
        denom_rate: Rate::percent(10),
    };

    let (store, ledger) = instantiate(msg);

    assert_eq!(ledger.name, "gOHM reward token".to_string());
    assert_eq!(ledger.symbol, "rgOHM".to_string());
    assert_eq!(ledger.decimals, 6u8);
    assert_eq!(ledger.total_supply, 0u128);

    assert_eq!(ledger.minter, "minter".to_string());
    assert_eq!(ledger.cap, None);

    let config = store.load().unwrap();
    assert_eq!(config.gohm_token, "gohm_token".to_string());
    assert_eq!(config.denom, "uluna".to_string());
    assert_eq!(config.gohm_rate, Rate::percent(1000));
    assert_eq!(config.denom_rate, Rate::percent(10));
}

#[test]
fn test_mint_tokens_fails_if_unauthorized() {
    let (store, mut ledger, _, denom_rate) = initialize_reward_token(None, None);

    let amount = 1000000u128;
    let msg = ExecuteMsg::Mint { recipient: "recipient".to_string(), amount };

    let info = mock_info("addr0001", vec![coin("uluna", mul(amount, denom_rate))]);

    let res = execute(&store, &mut ledger, &mock_env(), &info, msg).unwrap_err();

    assert_eq!(res, Error::Unauthorized);
}

#[test]
fn test_mint_tokens_fails_if_several_denoms_received() {
    let (store, mut ledger, _, denom_rate) = initialize_reward_token(None, None);

    let amount = 1000000u128;
    let msg = ExecuteMsg::Mint { recipient: "recipient".to_string(), amount };

    let info = mock_info(
        "minter",
        vec![
            coin("uluna", mul(amount, denom_rate)),
            coin("uust", mul(amount, denom_rate)),
        ],
    );

    let res = execute(&store, &mut ledger, &mock_env(), &info, msg).unwrap_err();

    assert_eq!(res, Error::MultiDenomFunds);
    assert_eq!(res.message(), "Cannot receive several denoms");
}

#[test]
fn test_mint_tokens_fails_if_received_denom_is_invalid() {
    let (store, mut ledger, _, _) = initialize_reward_token(None, None);

    let amount = 1000000u128;
    let msg = ExecuteMsg::Mint { recipient: "recipient".to_string(), amount };

    let info = mock_info("mint", vec![coin("uluna", 1000u128)]);

    let res = execute(&store, &mut ledger, &mock_env(), &info, msg).unwrap_err();

    assert_eq!(res, Error::InvalidDenomAmount);
    assert_eq!(res.message(), "Invalid denom amount");
}

#[test]
fn test_mint_tokens_when_all_rates_are_not_zero() {
    let (store, mut ledger, gohm_rate, denom_rate) = initialize_reward_token(None, None);

    let amount = 1000000u128;

    let (res, gohm_amount, _) = mint_token(
        &store,
        &mut ledger,
        gohm_rate,
        denom_rate,
        amount,
        "recipient".to_string(),
    );

    assert_eq!(
        res,
        vec![PendingTransfer::TokenPull {
            token: "gohm_token".to_string(),
            owner: "minter".to_string(),
            recipient: MOCK_CONTRACT_ADDR.to_string(),
            amount: gohm_amount,
        }]
    );

    assert_eq!(ledger.name, "gOHM reward token".to_string());
    assert_eq!(ledger.symbol, "rgOHM".to_string());
    assert_eq!(ledger.decimals, 6u8);
    assert_eq!(ledger.total_supply, amount);

    assert_eq!(ledger.query_balance(&"recipient".to_string()), amount);
}

#[test]
fn test_mint_tokens_when_gohm_rate_is_zero() {
    let (store, mut ledger, _, denom_rate) = initialize_reward_token(Some(Rate::zero()), None);

    let amount = 1000000u128;

    let (res, _, _) = mint_token(
        &store,
        &mut ledger,
        Rate::zero(),
        denom_rate,
        amount,
        "recipient".to_string(),
    );

    assert_eq!(res, vec![]);

    assert_eq!(ledger.name, "gOHM reward token".to_string());
    assert_eq!(ledger.symbol, "rgOHM".to_string());
    assert_eq!(ledger.decimals, 6u8);
    assert_eq!(ledger.total_supply, amount);

    assert_eq!(ledger.query_balance(&"recipient".to_string()), amount);
}

#[test]
fn test_mint_tokens_when_denom_rate_is_zero() {
    let (store, mut ledger, gohm_rate, _) = initialize_reward_token(None, Some(Rate::zero()));

    let amount = 1000000u128;

    let (res, gohm_amount, _) = mint_token(
        &store,
        &mut ledger,
        gohm_rate,
        Rate::zero(),
        amount,
        "recipient".to_string(),
    );

    assert_eq!(
        res,
        vec![PendingTransfer::TokenPull {
            token: "gohm_token".to_string(),
            owner: "minter".to_string(),
            recipient: MOCK_CONTRACT_ADDR.to_string(),
            amount: gohm_amount,
        }]
    );

    assert_eq!(ledger.name, "gOHM reward token".to_string());
    assert_eq!(ledger.symbol, "rgOHM".to_string());
    assert_eq!(ledger.decimals, 6u8);
    assert_eq!(ledger.total_supply, amount);

    assert_eq!(ledger.query_balance(&"recipient".to_string()), amount);
}

#[test]
fn test_burn_tokens_fails_if_no_balance() {
    let (store, mut ledger, gohm_rate, denom_rate) = initialize_reward_token(None, None);

    let mint_amount = 1000000u128;
    mint_token(
        &store,
        &mut ledger,
        gohm_rate,
        denom_rate,
        mint_amount,
        "recipient".to_string(),
    );

    let amount = 1000000u128;

    let msg = ExecuteMsg::Burn { amount };

    let info = mock_info("addr0000", vec![]);

    let res = execute(&store, &mut ledger, &mock_env(), &info, msg).unwrap_err();
    assert_eq!(res, Error::InsufficientBalance);
}

#[test]
fn test_burn_tokens_when_all_rates_are_not_zero() {
    let (store, mut ledger, gohm_rate, denom_rate) = initialize_reward_token(None, None);

    let mint_amount = 1000000u128;
    mint_token(
        &store,
        &mut ledger,
        gohm_rate,
        denom_rate,
        mint_amount,
        "recipient".to_string(),
    );

    let amount = 1000000u128;

    let res = burn_token(&store, &mut ledger, amount, "recipient".to_string());

    assert_eq!(
        res,
        vec![
            PendingTransfer::NativeRelease {
                denom: "uluna".to_string(),
                recipient: "recipient".to_string(),
                amount: mul(amount, denom_rate),
            },
            PendingTransfer::TokenRelease {
                token: "gohm_token".to_string(),
                recipient: "recipient".to_string(),
                amount: mul(amount, gohm_rate),
            },
        ]
    );

    assert_eq!(ledger.name, "gOHM reward token".to_string());
    assert_eq!(ledger.symbol, "rgOHM".to_string());
    assert_eq!(ledger.decimals, 6u8);
    assert_eq!(ledger.total_supply, mint_amount - amount);

    assert_eq!(
        ledger.query_balance(&"recipient".to_string()),
        mint_amount - amount
    );
}

#[test]
fn test_burn_tokens_when_gohm_rate_is_zero() {
    let (store, mut ledger, gohm_rate, denom_rate) =
        initialize_reward_token(Some(Rate::zero()), None);

    let mint_amount = 1000000u128;
    mint_token(
        &store,
        &mut ledger,
        gohm_rate,
        denom_rate,
        mint_amount,
        "recipient".to_string(),
    );

    let amount = 1000000u128;

    let res = burn_token(&store, &mut ledger, amount, "recipient".to_string());

    assert_eq!(
        res,
        vec![PendingTransfer::NativeRelease {
            denom: "uluna".to_string(),
            recipient: "recipient".to_string(),
            amount: mul(amount, denom_rate),
        }]
    );

    assert_eq!(ledger.name, "gOHM reward token".to_string());
    assert_eq!(ledger.symbol, "rgOHM".to_string());
    assert_eq!(ledger.decimals, 6u8);
    assert_eq!(ledger.total_supply, mint_amount - amount);

    assert_eq!(
        ledger.query_balance(&"recipient".to_string()),
        mint_amount - amount
    );
}

#[test]
fn test_burn_tokens_when_denom_rate_is_zero() {
    let (store, mut ledger, gohm_rate, denom_rate) =
        initialize_reward_token(None, Some(Rate::zero()));

    let mint_amount = 1000000u128;
    mint_token(
        &store,
        &mut ledger,
        gohm_rate,
        denom_rate,
        mint_amount,
        "recipient".to_string(),
    );

    let amount = 1000000u128;

    let res = burn_token(&store, &mut ledger, amount, "recipient".to_string());

    assert_eq!(
        res,
        vec![PendingTransfer::TokenRelease {
            token: "gohm_token".to_string(),
            recipient: "recipient".to_string(),
            amount: mul(amount, gohm_rate),
        }]
    );

    assert_eq!(ledger.name, "gOHM reward token".to_string());
    assert_eq!(ledger.symbol, "rgOHM".to_string());
    assert_eq!(ledger.decimals, 6u8);
    assert_eq!(ledger.total_supply, mint_amount - amount);

    assert_eq!(
        ledger.query_balance(&"recipient".to_string()),
        mint_amount - amount
    );
}

#[test]
fn test_mint_then_burn_round_trip() {
    // rates 0.10 native and 10.0 token per receipt unit
    let (store, mut ledger, gohm_rate, denom_rate) = initialize_reward_token(None, None);

    let amount = 1000000u128;
    let info = mock_info("minter", vec![coin("uluna", 100000u128)]);
    let msg = ExecuteMsg::Mint { recipient: "recipient".to_string(), amount };
    let mint_msgs = execute(&store, &mut ledger, &mock_env(), &info, msg).unwrap();

    assert_eq!(ledger.total_supply, 1000000u128);
    assert_eq!(
        mint_msgs,
        vec![PendingTransfer::TokenPull {
            token: "gohm_token".to_string(),
            owner: "minter".to_string(),
            recipient: MOCK_CONTRACT_ADDR.to_string(),
            amount: 10000000u128,
        }]
    );

    let burn_msgs = burn_token(&store, &mut ledger, amount, "recipient".to_string());

    assert_eq!(
        burn_msgs,
        vec![
            PendingTransfer::NativeRelease {
                denom: "uluna".to_string(),
                recipient: "recipient".to_string(),
                amount: 100000u128,
            },
            PendingTransfer::TokenRelease {
                token: "gohm_token".to_string(),
                recipient: "recipient".to_string(),
                amount: 10000000u128,
            },
        ]
    );

    // supply and balances are back to their pre-mint values, and the
    // collateral pulled in equals the collateral released, leg for leg
    assert_eq!(ledger.total_supply, 0u128);
    assert_eq!(ledger.query_balance(&"recipient".to_string()), 0u128);
    assert_eq!(mul(amount, denom_rate), 100000u128);
    assert_eq!(mul(amount, gohm_rate), 10000000u128);
}

#[test]
fn test_mint_zero_amount_is_permitted() {
    let (store, mut ledger, _, _) = initialize_reward_token(None, None);

    let msg = ExecuteMsg::Mint { recipient: "recipient".to_string(), amount: 0u128 };
    let info = mock_info("minter", vec![]);

    let res = execute(&store, &mut ledger, &mock_env(), &info, msg).unwrap();

    assert_eq!(res, vec![]);
    assert_eq!(ledger.total_supply, 0u128);
    assert_eq!(ledger.query_balance(&"recipient".to_string()), 0u128);
}

#[test]
fn test_mint_rejects_unrequested_funds_when_rate_is_zero() {
    let (store, mut ledger, _, _) = initialize_reward_token(None, Some(Rate::zero()));

    let amount = 1000000u128;
    let msg = ExecuteMsg::Mint { recipient: "recipient".to_string(), amount };

    // the native rate is zero, so attaching any native funds must fail
    let info = mock_info("minter", vec![coin("uluna", 5u128)]);

    let res = execute(&store, &mut ledger, &mock_env(), &info, msg).unwrap_err();

    assert_eq!(res, Error::InvalidDenomAmount);
    assert_eq!(ledger.total_supply, 0u128);
}

#[test]
fn test_mint_fails_on_rate_overflow() {
    // an enormous rate and a large (but 10^18-divisible, hence integral)
    // amount: the exact product exceeds the representable range
    let mut store = ConfigStore::new();
    store.save(reward_token::state::Config {
        gohm_token: "gohm_token".to_string(),
        denom: "uluna".to_string(),
        gohm_rate: Rate::zero(),
        denom_rate: Rate::percent(u64::MAX),
    });
    let mut ledger = Ledger::new(
        "gOHM reward token".to_string(),
        "rgOHM".to_string(),
        6u8,
        "minter".to_string(),
        None,
    );

    let amount = 10_000_000_000_000_000_000_000u128;
    let msg = ExecuteMsg::Mint { recipient: "recipient".to_string(), amount };
    let info = mock_info("minter", vec![]);

    let res = execute(&store, &mut ledger, &mock_env(), &info, msg).unwrap_err();

    assert_eq!(res, Error::ArithmeticOverflow);
    assert_eq!(res.message(), "Arithmetic overflow");
    assert_eq!(ledger.total_supply, 0u128);
}

#[test]
fn test_mint_fails_on_supply_overflow() {
    // both rates zero: no collateral owed, so supply alone can overflow
    let mut store = ConfigStore::new();
    store.save(reward_token::state::Config {
        gohm_token: "gohm_token".to_string(),
        denom: "uluna".to_string(),
        gohm_rate: Rate::zero(),
        denom_rate: Rate::zero(),
    });
    let mut ledger = Ledger::new(
        "gOHM reward token".to_string(),
        "rgOHM".to_string(),
        6u8,
        "minter".to_string(),
        None,
    );

    let msg = ExecuteMsg::Mint { recipient: "recipient".to_string(), amount: u128::MAX };
    let info = mock_info("minter", vec![]);
    execute(&store, &mut ledger, &mock_env(), &info, msg).unwrap();
    assert_eq!(ledger.total_supply, u128::MAX);

    let msg = ExecuteMsg::Mint { recipient: "recipient".to_string(), amount: 1u128 };
    let info = mock_info("minter", vec![]);
    let res = execute(&store, &mut ledger, &mock_env(), &info, msg).unwrap_err();
    assert_eq!(res, Error::ArithmeticOverflow);
    assert_eq!(ledger.total_supply, u128::MAX);
}

#[test]
fn test_mint_fails_on_non_integral_product() {
    // one atomic unit per receipt unit: a single receipt unit owes a
    // fractional amount of collateral, which must fail rather than round
    let (store, mut ledger, _, _) =
        initialize_reward_token(None, Some(Rate::from_atomics(1u128)));

    let msg = ExecuteMsg::Mint { recipient: "recipient".to_string(), amount: 1u128 };
    let info = mock_info("minter", vec![]);

    let res = execute(&store, &mut ledger, &mock_env(), &info, msg).unwrap_err();

    assert_eq!(res, Error::NonIntegralProduct);
    assert_eq!(res.message(), "Non-integral collateral amount");
    assert_eq!(ledger.total_supply, 0u128);
}

#[test]
fn test_mint_and_burn_fail_before_setup() {
    let store = ConfigStore::new();
    let mut ledger = Ledger::new(
        "gOHM reward token".to_string(),
        "rgOHM".to_string(),
        6u8,
        "minter".to_string(),
        None,
    );

    let msg = ExecuteMsg::Mint { recipient: "recipient".to_string(), amount: 1000u128 };
    let info = mock_info("minter", vec![]);
    let res = execute(&store, &mut ledger, &mock_env(), &info, msg).unwrap_err();
    assert_eq!(res, Error::NotInitialized);
    assert_eq!(res.message(), "Configuration not initialized");

    let msg = ExecuteMsg::Burn { amount: 1000u128 };
    let info = mock_info("minter", vec![]);
    let res = execute(&store, &mut ledger, &mock_env(), &info, msg).unwrap_err();
    assert_eq!(res, Error::NotInitialized);
}

#[test]
fn test_mint_fails_above_supply_cap() {
    let mut store = ConfigStore::new();
    let config = reward_token::state::Config {
        gohm_token: "gohm_token".to_string(),
        denom: "uluna".to_string(),
        gohm_rate: Rate::zero(),
        denom_rate: Rate::zero(),
    };
    store.save(config);
    let mut ledger = Ledger::new(
        "gOHM reward token".to_string(),
        "rgOHM".to_string(),
        6u8,
        "minter".to_string(),
        Some(500u128),
    );

    let msg = ExecuteMsg::Mint { recipient: "recipient".to_string(), amount: 501u128 };
    let info = mock_info("minter", vec![]);
    let res = execute(&store, &mut ledger, &mock_env(), &info, msg).unwrap_err();
    assert_eq!(res, Error::CannotExceedCap);
    assert_eq!(ledger.total_supply, 0u128);

    let msg = ExecuteMsg::Mint { recipient: "recipient".to_string(), amount: 500u128 };
    let info = mock_info("minter", vec![]);
    execute(&store, &mut ledger, &mock_env(), &info, msg).unwrap();
    assert_eq!(ledger.total_supply, 500u128);
}

#[test]
fn test_burn_leaves_other_balances_untouched() {
    let (store, mut ledger, gohm_rate, denom_rate) = initialize_reward_token(None, None);

    mint_token(
        &store,
        &mut ledger,
        gohm_rate,
        denom_rate,
        1000u128,
        "holder_one".to_string(),
    );
    mint_token(
        &store,
        &mut ledger,
        gohm_rate,
        denom_rate,
        2000u128,
        "holder_two".to_string(),
    );

    burn_token(&store, &mut ledger, 400u128, "holder_one".to_string());

    assert_eq!(ledger.query_balance(&"holder_one".to_string()), 600u128);
    assert_eq!(ledger.query_balance(&"holder_two".to_string()), 2000u128);
    assert_eq!(ledger.total_supply, 2600u128);
}
