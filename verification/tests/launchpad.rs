use launchpad::contract::{
    add_phase, add_whitelist, claim_token, deposit, flip_claim_status, instantiate,
    query_launchpad, query_phase, query_user, remove_from_whitelist, remove_phase, update_config,
    update_phase, withdraw,
};
use launchpad::error::Error;
use launchpad::model::TokenKind;
use launchpad::contract::execute;
use launchpad::msg::{ConfigUpdate, ExecuteMsg, ExecuteOk, InstantiateMsg, PhaseUpdate};
use launchpad::state::{Coin, Phase, State, TokenInfo, TransferInstr, User, UserToken, WhitelistUser};

const T: u64 = 1_571_797_419;
const PRICE: u128 = 1_000_000_000_000_000_000;

fn og_phases() -> Vec<Phase> {
    vec![
        Phase {
            name: "OG".to_string(),
            start_time: T,
            end_time: T,
            price_per_token: PRICE,
            supply: 150,
            address_list: vec!["addr1".to_string(), "addr2".to_string()],
            limit: 5,
            total_minted: 0,
        },
        Phase {
            name: "WL".to_string(),
            start_time: T,
            end_time: T + 20,
            price_per_token: PRICE,
            supply: 10000,
            address_list: vec!["addr3".to_string()],
            limit: 1200,
            total_minted: 0,
        },
        Phase {
            name: "Public".to_string(),
            start_time: T + 20,
            end_time: T + 50,
            price_per_token: PRICE,
            supply: 20000,
            address_list: vec![],
            limit: 1200,
            total_minted: 0,
        },
    ]
}

fn base_msg(phases: Option<Vec<Phase>>) -> InstantiateMsg {
    InstantiateMsg {
        admin: "admin".to_string(),
        start_time: T,
        end_time: T + 600,
        buy_denom: "inj".to_string(),
        buy_token_type: TokenKind::Native,
        tokens_per_buy: 1,
        token_info: TokenInfo {
            name: "TEST".to_string(),
            symbol: "TEST".to_string(),
            denom: None,
            decimals: None,
            description: "TEST".to_string(),
            supply: 5000,
        },
        phases,
        fees_wallet: "fees_wallet".to_string(),
        withdraw_wallet: "withdraw_wallet".to_string(),
        whitelist: Some(Vec::new()),
    }
}

fn pay(amount: u64) -> Vec<Coin> {
    vec![Coin { denom: "inj".to_string(), amount: (amount as u128) * PRICE }]
}

fn fresh_user() -> User {
    User { buy_phases: Vec::new(), amount: 0, tokens: 0, claimed: false }
}

fn do_deposit(
    state: &mut State,
    user: &mut User,
    ledger: &mut Vec<UserToken>,
    t: u64,
    sender: &str,
    funds: Vec<Coin>,
    amount: u64,
) -> Result<launchpad::msg::DepositReceipt, Error> {
    deposit(state, user, ledger, t, &sender.to_string(), &funds, amount)
}

#[test]
fn multiple_deposit_test() {
    let mut state = instantiate(base_msg(Some(og_phases()))).unwrap();
    let whitelist = vec![WhitelistUser { address: "addr1".to_string(), amount: 100u64 }];
    add_whitelist(&mut state, T, &"admin".to_string(), whitelist).unwrap();
    assert_eq!(state.whitelist.len(), 1);

    let mut user = fresh_user();
    let mut ledger: Vec<UserToken> = Vec::new();

    // whitelist override lets addr1 buy 100 in OG even over the limit of 5
    let r = do_deposit(&mut state, &mut user, &mut ledger, T, "addr1", pay(100), 100);
    assert!(r.is_ok());
    let rc = r.unwrap();
    assert_eq!(rc.phase_name, "OG".to_string());
    assert_eq!(rc.amount, 100);
    assert_eq!(state.phases[0].total_minted, 100);

    // a second, small deposit also passes: the override covers the call
    let r = do_deposit(&mut state, &mut user, &mut ledger, T, "addr1", pay(5), 5);
    assert!(r.is_ok());
    assert_eq!(state.phases[0].total_minted, 105);
    assert_eq!(state.phases[0].name, "OG".to_string());
    assert_eq!(state.phases[0].start_time, T);
    assert_eq!(state.phases[0].end_time, T);
    assert_eq!(user.amount, 105);
    assert_eq!(user.tokens, 105);
    assert_eq!(ledger.len(), 1);
    assert_eq!(ledger[0].tokens, 105);
}

#[test]
fn scenario_limit_reached() {
    // the OG window scenario: five units fit, the sixth is over the limit
    let mut state = instantiate(base_msg(Some(og_phases()))).unwrap();
    let mut user = fresh_user();
    let mut ledger: Vec<UserToken> = Vec::new();

    let r = do_deposit(&mut state, &mut user, &mut ledger, T, "addr1", pay(5), 5);
    assert!(r.is_ok());
    assert_eq!(state.phases[0].total_minted, 5);
    assert_eq!(user.tokens, 5);

    let r = do_deposit(&mut state, &mut user, &mut ledger, T, "addr1", pay(1), 1);
    assert_eq!(r.unwrap_err(), Error::MaxBuyPhaseReached);
    assert_eq!(state.phases[0].total_minted, 5);
}

#[test]
fn deposit_outside_window() {
    let mut state = instantiate(base_msg(Some(og_phases()))).unwrap();
    let mut user = fresh_user();
    let mut ledger: Vec<UserToken> = Vec::new();
    let r = do_deposit(&mut state, &mut user, &mut ledger, T + 700, "addr1", pay(1), 1);
    assert_eq!(r.unwrap_err(), Error::NotInLaunchpadTime);
}

#[test]
fn deposit_no_active_phase() {
    let mut state = instantiate(base_msg(Some(og_phases()))).unwrap();
    let mut user = fresh_user();
    let mut ledger: Vec<UserToken> = Vec::new();
    // inside the sale window but after every phase window
    let r = do_deposit(&mut state, &mut user, &mut ledger, T + 60, "addr1", pay(1), 1);
    assert_eq!(r.unwrap_err(), Error::NoActivePhase);
}

#[test]
fn deposit_not_on_allow_list() {
    let mut state = instantiate(base_msg(Some(og_phases()))).unwrap();
    let mut user = fresh_user();
    let mut ledger: Vec<UserToken> = Vec::new();
    let r = do_deposit(&mut state, &mut user, &mut ledger, T, "outsider", pay(1), 1);
    assert_eq!(r.unwrap_err(), Error::NotInPhase);
}

#[test]
fn deposit_overbuy() {
    let mut state = instantiate(base_msg(Some(og_phases()))).unwrap();
    add_whitelist(
        &mut state,
        T,
        &"admin".to_string(),
        vec![WhitelistUser { address: "addr1".to_string(), amount: 1000 }],
    )
    .unwrap();
    let mut user = fresh_user();
    let mut ledger: Vec<UserToken> = Vec::new();
    // 151 exceeds the OG supply of 150, even with a whitelist override
    let r = do_deposit(&mut state, &mut user, &mut ledger, T, "addr1", pay(151), 151);
    assert_eq!(r.unwrap_err(), Error::Overbuy);
}

#[test]
fn deposit_over_limit_without_override() {
    let mut state = instantiate(base_msg(Some(og_phases()))).unwrap();
    let mut user = fresh_user();
    let mut ledger: Vec<UserToken> = Vec::new();
    let r = do_deposit(&mut state, &mut user, &mut ledger, T, "addr1", pay(6), 6);
    assert_eq!(r.unwrap_err(), Error::OverLimit);
}

#[test]
fn payment_exactness_cases() {
    // off by one in either direction, wrong denomination, no coin, two coins
    let mut state = instantiate(base_msg(Some(og_phases()))).unwrap();
    let mut user = fresh_user();
    let mut ledger: Vec<UserToken> = Vec::new();

    let low = vec![Coin { denom: "inj".to_string(), amount: 2 * PRICE - 1 }];
    let r = do_deposit(&mut state, &mut user, &mut ledger, T, "addr1", low, 2);
    assert_eq!(r.unwrap_err(), Error::PaymentMismatch);

    let high = vec![Coin { denom: "inj".to_string(), amount: 2 * PRICE + 1 }];
    let r = do_deposit(&mut state, &mut user, &mut ledger, T, "addr1", high, 2);
    assert_eq!(r.unwrap_err(), Error::PaymentMismatch);

    let wrong = vec![Coin { denom: "atom".to_string(), amount: 2 * PRICE }];
    let r = do_deposit(&mut state, &mut user, &mut ledger, T, "addr1", wrong, 2);
    assert_eq!(r.unwrap_err(), Error::PaymentMismatch);

    let r = do_deposit(&mut state, &mut user, &mut ledger, T, "addr1", Vec::new(), 2);
    assert_eq!(r.unwrap_err(), Error::PaymentMismatch);

    let two = vec![
        Coin { denom: "inj".to_string(), amount: 2 * PRICE },
        Coin { denom: "inj".to_string(), amount: 1 },
    ];
    let r = do_deposit(&mut state, &mut user, &mut ledger, T, "addr1", two, 2);
    assert_eq!(r.unwrap_err(), Error::PaymentMismatch);

    let exact = pay(2);
    let r = do_deposit(&mut state, &mut user, &mut ledger, T, "addr1", exact, 2);
    assert!(r.is_ok());
    assert_eq!(state.phases[0].total_minted, 2);
}

#[test]
fn carry_over_applies_once() {
    // deposit into WL first: OG sold nothing, so its 150 roll into WL's pool
    let mut state = instantiate(base_msg(Some(og_phases()))).unwrap();
    let mut user = fresh_user();
    let mut ledger: Vec<UserToken> = Vec::new();

    let r = do_deposit(&mut state, &mut user, &mut ledger, T + 10, "addr3", pay(7), 7);
    assert!(r.is_ok());
    assert_eq!(state.phases[1].supply, 10150);
    assert_eq!(state.phases[1].total_minted, 7);
    // OG's allow-list was appended to WL's (gated phase keeps gating)
    assert_eq!(state.phases[1].address_list.len(), 3);

    // a second deposit must not merge again
    let r = do_deposit(&mut state, &mut user, &mut ledger, T + 10, "addr3", pay(3), 3);
    assert!(r.is_ok());
    assert_eq!(state.phases[1].supply, 10150);
    assert_eq!(state.phases[1].address_list.len(), 3);
    assert_eq!(state.phases[1].total_minted, 10);
}

#[test]
fn carry_over_open_phase_keeps_empty_list() {
    // Public has an empty allow-list: the merge adds supply but no gating
    let mut phases = og_phases();
    phases[1].end_time = T + 15;
    let mut state = instantiate(base_msg(Some(phases))).unwrap();
    let mut user = fresh_user();
    let mut ledger: Vec<UserToken> = Vec::new();

    let r = do_deposit(&mut state, &mut user, &mut ledger, T + 20, "anyone", pay(4), 4);
    assert!(r.is_ok());
    assert_eq!(state.phases[2].supply, 30000);
    assert_eq!(state.phases[2].address_list.len(), 0);
    assert_eq!(state.phases[2].total_minted, 4);
}

#[test]
fn instantiate_rejects_bad_windows_and_phases() {
    let mut bad = base_msg(None);
    bad.start_time = T + 10;
    bad.end_time = T;
    assert_eq!(instantiate(bad).unwrap_err(), Error::InvalidTimeRange);

    let mut phases = og_phases();
    phases[0].supply = 0;
    assert_eq!(instantiate(base_msg(Some(phases))).unwrap_err(), Error::SupplyZero);

    let mut phases = og_phases();
    phases[1].price_per_token = 0;
    assert_eq!(instantiate(base_msg(Some(phases))).unwrap_err(), Error::PriceZero);

    let mut phases = og_phases();
    phases[2].start_time = T + 60;
    assert_eq!(instantiate(base_msg(Some(phases))).unwrap_err(), Error::InvalidTimeRange);

    let mut phases = og_phases();
    phases[1].name = "OG".to_string();
    assert_eq!(instantiate(base_msg(Some(phases))).unwrap_err(), Error::DuplicatePhase);

    let mut phases = og_phases();
    phases[0].total_minted = 151;
    assert_eq!(instantiate(base_msg(Some(phases))).unwrap_err(), Error::MintedExceedsSupply);

    let mut msg = base_msg(None);
    msg.whitelist = Some(vec![
        WhitelistUser { address: "a".to_string(), amount: 1 },
        WhitelistUser { address: "a".to_string(), amount: 2 },
    ]);
    assert_eq!(instantiate(msg).unwrap_err(), Error::DuplicateWhitelist);
}

#[test]
fn admin_timing_gate_rejections() {
    let mut state = instantiate(base_msg(Some(og_phases()))).unwrap();
    let admin = "admin".to_string();
    let after = T + 1;

    let new_phase = Phase {
        name: "Late".to_string(),
        start_time: T + 100,
        end_time: T + 200,
        price_per_token: PRICE,
        supply: 10,
        address_list: vec![],
        limit: 1,
        total_minted: 0,
    };
    assert_eq!(
        add_phase(&mut state, after, &admin, new_phase).unwrap_err(),
        Error::LaunchpadStarted
    );
    let patch = PhaseUpdate {
        start_time: None,
        end_time: None,
        price_per_token: None,
        supply: Some(99),
        address_list: None,
        limit: None,
    };
    assert_eq!(
        update_phase(&mut state, after, &admin, &"OG".to_string(), patch).unwrap_err(),
        Error::LaunchpadStarted
    );
    assert_eq!(
        remove_phase(&mut state, after, &admin, &"OG".to_string()).unwrap_err(),
        Error::LaunchpadStarted
    );
    assert_eq!(
        add_whitelist(
            &mut state,
            after,
            &admin,
            vec![WhitelistUser { address: "x".to_string(), amount: 1 }],
        )
        .unwrap_err(),
        Error::LaunchpadStarted
    );
    assert_eq!(
        remove_from_whitelist(&mut state, after, &admin, &"x".to_string()).unwrap_err(),
        Error::LaunchpadStarted
    );
    // nothing changed
    assert_eq!(state.phases.len(), 3);
    assert_eq!(state.phases[0].supply, 150);
}

#[test]
fn admin_only_rejections() {
    let mut state = instantiate(base_msg(Some(og_phases()))).unwrap();
    let stranger = "stranger".to_string();
    assert_eq!(
        remove_phase(&mut state, T, &stranger, &"OG".to_string()).unwrap_err(),
        Error::NotAdmin
    );
    assert_eq!(
        flip_claim_status(&mut state, &stranger).unwrap_err(),
        Error::NotAdmin
    );
    assert_eq!(
        withdraw(&state, &stranger, "inj".to_string(), TokenKind::Native, 5).unwrap_err(),
        Error::NotAdmin
    );
}

#[test]
fn phase_crud() {
    let mut state = instantiate(base_msg(Some(og_phases()))).unwrap();
    let admin = "admin".to_string();

    // duplicate name rejected
    let dup = Phase {
        name: "OG".to_string(),
        start_time: T,
        end_time: T + 1,
        price_per_token: 1,
        supply: 1,
        address_list: vec![],
        limit: 1,
        total_minted: 0,
    };
    assert_eq!(add_phase(&mut state, T, &admin, dup).unwrap_err(), Error::PhaseExists);

    let extra = Phase {
        name: "Extra".to_string(),
        start_time: T + 60,
        end_time: T + 80,
        price_per_token: 2,
        supply: 40,
        address_list: vec![],
        limit: 4,
        total_minted: 0,
    };
    add_phase(&mut state, T, &admin, extra).unwrap();
    assert_eq!(state.phases.len(), 4);
    assert_eq!(state.phases[3].name, "Extra".to_string());

    // update an existing phase; lowering supply under the minted counter is rejected
    let patch = PhaseUpdate {
        start_time: None,
        end_time: None,
        price_per_token: Some(3),
        supply: Some(80),
        address_list: None,
        limit: Some(8),
    };
    update_phase(&mut state, T, &admin, &"Extra".to_string(), patch).unwrap();
    assert_eq!(state.phases[3].price_per_token, 3);
    assert_eq!(state.phases[3].supply, 80);
    assert_eq!(state.phases[3].limit, 8);

    let bad = PhaseUpdate {
        start_time: Some(T + 90),
        end_time: None,
        price_per_token: None,
        supply: None,
        address_list: None,
        limit: None,
    };
    assert_eq!(
        update_phase(&mut state, T, &admin, &"Extra".to_string(), bad).unwrap_err(),
        Error::InvalidTimeRange
    );
    assert_eq!(
        update_phase(&mut state, T, &admin, &"Ghostly".to_string(), PhaseUpdate {
            start_time: None,
            end_time: None,
            price_per_token: None,
            supply: None,
            address_list: None,
            limit: None,
        })
        .unwrap_err(),
        Error::PhaseNotFound
    );

    remove_phase(&mut state, T, &admin, &"Extra".to_string()).unwrap();
    assert_eq!(state.phases.len(), 3);
    assert_eq!(
        remove_phase(&mut state, T, &admin, &"Extra".to_string()).unwrap_err(),
        Error::PhaseNotFound
    );
}

#[test]
fn whitelist_upsert_and_remove() {
    let mut state = instantiate(base_msg(None)).unwrap();
    let admin = "admin".to_string();
    add_whitelist(
        &mut state,
        T,
        &admin,
        vec![
            WhitelistUser { address: "a".to_string(), amount: 10 },
            WhitelistUser { address: "b".to_string(), amount: 20 },
        ],
    )
    .unwrap();
    assert_eq!(state.whitelist.len(), 2);

    // upsert overwrites the existing amount, appends the new address
    add_whitelist(
        &mut state,
        T,
        &admin,
        vec![
            WhitelistUser { address: "a".to_string(), amount: 11 },
            WhitelistUser { address: "c".to_string(), amount: 30 },
        ],
    )
    .unwrap();
    assert_eq!(state.whitelist.len(), 3);
    assert_eq!(state.whitelist[0].amount, 11);
    assert_eq!(state.whitelist[2].address, "c".to_string());

    assert_eq!(remove_from_whitelist(&mut state, T, &admin, &"b".to_string()).unwrap(), true);
    assert_eq!(state.whitelist.len(), 2);
    // a missing address is reported, not rejected
    assert_eq!(remove_from_whitelist(&mut state, T, &admin, &"b".to_string()).unwrap(), false);
}

#[test]
fn update_config_patches_and_gates() {
    let mut state = instantiate(base_msg(Some(og_phases()))).unwrap();
    let admin = "admin".to_string();

    let noop = ConfigUpdate {
        start_time: None,
        end_time: None,
        buy_denom: None,
        buy_token_type: None,
        tokens_per_buy: None,
        token_info: None,
        phases: None,
        new_admin: None,
    };
    // mid-sale configuration changes are rejected
    assert_eq!(
        update_config(&mut state, T + 10, &admin, noop).unwrap_err(),
        Error::LaunchpadInProgress
    );

    let patch = ConfigUpdate {
        start_time: Some(T + 1000),
        end_time: Some(T + 2000),
        buy_denom: Some("atom".to_string()),
        buy_token_type: Some(TokenKind::Cw20),
        tokens_per_buy: Some(7),
        token_info: None,
        phases: None,
        new_admin: Some("admin2".to_string()),
    };
    update_config(&mut state, T - 1, &admin, patch).unwrap();
    assert_eq!(state.start_time, T + 1000);
    assert_eq!(state.end_time, T + 2000);
    assert_eq!(state.buy_denom, "atom".to_string());
    assert_eq!(state.buy_token_type, TokenKind::Cw20);
    assert_eq!(state.tokens_per_buy, 7);
    assert_eq!(state.admin, "admin2".to_string());

    // the patched window must stay ordered
    let bad = ConfigUpdate {
        start_time: Some(T + 3000),
        end_time: None,
        buy_denom: None,
        buy_token_type: None,
        tokens_per_buy: None,
        token_info: None,
        phases: None,
        new_admin: None,
    };
    assert_eq!(
        update_config(&mut state, T - 1, &"admin2".to_string(), bad).unwrap_err(),
        Error::InvalidTimeRange
    );
}

#[test]
fn claim_exactly_once() {
    let mut state = instantiate(base_msg(Some(og_phases()))).unwrap();
    let admin = "admin".to_string();

    // claiming cannot be enabled before the settlement asset is configured
    assert_eq!(flip_claim_status(&mut state, &admin).unwrap_err(), Error::TokenDenomNotSet);

    let set_denom = ConfigUpdate {
        start_time: None,
        end_time: None,
        buy_denom: None,
        buy_token_type: None,
        tokens_per_buy: None,
        token_info: Some(TokenInfo {
            name: "TEST".to_string(),
            symbol: "TEST".to_string(),
            denom: Some("tokencontract".to_string()),
            decimals: Some(2),
            description: "TEST".to_string(),
            supply: 5000,
        }),
        phases: None,
        new_admin: None,
    };
    update_config(&mut state, T - 1, &admin, set_denom).unwrap();
    assert_eq!(flip_claim_status(&mut state, &admin).unwrap(), true);

    let mut record = Some(User { buy_phases: Vec::new(), amount: 5, tokens: 5, claimed: false });
    let sender = "addr1".to_string();
    let instr = claim_token(&state, &mut record, &sender).unwrap();
    match instr {
        TransferInstr::Cw20 { contract, amount, recipient } => {
            assert_eq!(contract, "tokencontract".to_string());
            assert_eq!(amount, 500);
            assert_eq!(recipient, "addr1".to_string());
        },
        TransferInstr::Native { .. } => panic!("claim must settle in the sale token"),
    }
    assert!(record.as_ref().unwrap().claimed);
    // the payout is issued exactly once
    assert_eq!(claim_token(&state, &mut record, &sender).unwrap_err(), Error::AlreadyClaimed);

    let mut absent: Option<User> = None;
    assert_eq!(claim_token(&state, &mut absent, &sender).unwrap_err(), Error::UserNotFound);

    assert_eq!(flip_claim_status(&mut state, &admin).unwrap(), false);
    let mut other = Some(User { buy_phases: Vec::new(), amount: 1, tokens: 1, claimed: false });
    assert_eq!(claim_token(&state, &mut other, &sender).unwrap_err(), Error::NotClaimable);
}

#[test]
fn withdraw_sweeps_to_wallet() {
    let state = instantiate(base_msg(None)).unwrap();
    let instr = withdraw(&state, &"admin".to_string(), "inj".to_string(), TokenKind::Native, 4200)
        .unwrap();
    match instr {
        TransferInstr::Native { denom, amount, to } => {
            assert_eq!(denom, "inj".to_string());
            assert_eq!(amount, 4200);
            assert_eq!(to, "withdraw_wallet".to_string());
        },
        TransferInstr::Cw20 { .. } => panic!("a native withdrawal must be a bank send"),
    }
    let instr = withdraw(&state, &"admin".to_string(), "ctoken".to_string(), TokenKind::Cw20, 7)
        .unwrap();
    match instr {
        TransferInstr::Cw20 { contract, amount, recipient } => {
            assert_eq!(contract, "ctoken".to_string());
            assert_eq!(amount, 7);
            assert_eq!(recipient, "withdraw_wallet".to_string());
        },
        TransferInstr::Native { .. } => panic!("a token withdrawal must call the token contract"),
    }
}

#[test]
fn queries_report_state() {
    let mut state = instantiate(base_msg(Some(og_phases()))).unwrap();
    add_whitelist(
        &mut state,
        T,
        &"admin".to_string(),
        vec![WhitelistUser { address: "addr1".to_string(), amount: 100 }],
    )
    .unwrap();
    let mut user = fresh_user();
    let mut ledger: Vec<UserToken> = Vec::new();
    do_deposit(&mut state, &mut user, &mut ledger, T, "addr1", pay(5), 5).unwrap();

    let lp = query_launchpad(&state);
    assert_eq!(lp.buy_denom, "inj".to_string());
    assert_eq!(lp.phases.len(), 3);
    assert_eq!(lp.phases[0].name, "OG".to_string());
    assert_eq!(lp.phases[0].address_list, 2);
    assert_eq!(lp.phases[0].total_minted, 5);
    assert_eq!(lp.whitelist.len(), 1);

    let ui = query_user(&state, &Some(user), &"addr1".to_string());
    assert_eq!(ui.amount, 5);
    assert_eq!(ui.tokens, 5);
    assert!(!ui.claimed);
    assert_eq!(ui.phases.len(), 3);
    assert_eq!(ui.phases[0].0, "OG".to_string());
    assert_eq!(ui.phases[0].1.current_mint, 5);
    assert!(ui.phases[0].1.eligible);
    assert!(!ui.phases[1].1.eligible);
    assert!(ui.phases[2].1.eligible);

    let missing = query_user(&state, &None, &"nobody".to_string());
    assert_eq!(missing.amount, 0);
    assert_eq!(missing.phases[0].1.current_mint, 0);

    let ph = query_phase(&state, &"WL".to_string()).unwrap();
    assert_eq!(ph.name, "WL".to_string());
    assert_eq!(ph.supply, 10000);
    assert_eq!(ph.address_list, vec!["addr3".to_string()]);
    assert_eq!(
        query_phase(&state, &"Nope".to_string()).unwrap_err(),
        Error::PhaseNotFound
    );
}

#[test]
fn zero_amount_deposit_is_accepted_with_zero_payment() {
    // a zero purchase is within every limit; it needs exactly one coin of zero
    let mut state = instantiate(base_msg(Some(og_phases()))).unwrap();
    let mut user = fresh_user();
    let mut ledger: Vec<UserToken> = Vec::new();
    let zero = vec![Coin { denom: "inj".to_string(), amount: 0 }];
    let r = do_deposit(&mut state, &mut user, &mut ledger, T, "addr1", zero, 0);
    assert!(r.is_ok());
    assert_eq!(state.phases[0].total_minted, 0);
    assert_eq!(user.amount, 0);
}

#[test]
fn deposits_accumulate_to_their_sum() {
    // three accepted purchases into one phase: the counter is exactly their sum
    let mut state = instantiate(base_msg(Some(og_phases()))).unwrap();
    let mut ledger: Vec<UserToken> = Vec::new();
    let mut user1 = fresh_user();
    let mut user2 = fresh_user();
    do_deposit(&mut state, &mut user1, &mut ledger, T, "addr1", pay(2), 2).unwrap();
    do_deposit(&mut state, &mut user2, &mut ledger, T, "addr2", pay(5), 5).unwrap();
    do_deposit(&mut state, &mut user1, &mut ledger, T, "addr1", pay(3), 3).unwrap();
    assert_eq!(state.phases[0].total_minted, 10);
    assert!(state.phases[0].total_minted <= state.phases[0].supply);
    assert_eq!(user1.amount, 5);
    assert_eq!(user2.amount, 5);
    assert_eq!(ledger.len(), 2);
    assert_eq!(ledger[0].tokens, 5);
    assert_eq!(ledger[1].tokens, 5);
}

#[test]
fn execute_dispatches_requests() {
    let mut state = instantiate(base_msg(Some(og_phases()))).unwrap();
    let mut record: Option<User> = None;
    let mut ledger: Vec<UserToken> = Vec::new();
    let admin = "admin".to_string();
    let buyer = "addr1".to_string();

    // a whitelist upsert through the dispatcher
    let r = execute(
        &mut state,
        &mut record,
        &mut ledger,
        T,
        &admin,
        &Vec::new(),
        0,
        ExecuteMsg::AddWhitelist {
            whitelist: vec![WhitelistUser { address: "addr1".to_string(), amount: 100 }],
        },
    );
    assert!(matches!(r, Ok(ExecuteOk::WhitelistAdded)));
    assert_eq!(state.whitelist.len(), 1);

    // a deposit through the dispatcher creates the buyer's record
    let r = execute(
        &mut state,
        &mut record,
        &mut ledger,
        T,
        &buyer,
        &pay(5),
        0,
        ExecuteMsg::Deposit { amount: 5 },
    );
    match r {
        Ok(ExecuteOk::Deposited(rc)) => {
            assert_eq!(rc.phase_name, "OG".to_string());
            assert_eq!(rc.amount, 5);
        },
        other => panic!("expected a deposit receipt, got {:?}", other),
    }
    assert_eq!(record.as_ref().unwrap().amount, 5);
    assert_eq!(state.phases[0].total_minted, 5);

    // a failing deposit leaves every record untouched
    let r = execute(
        &mut state,
        &mut record,
        &mut ledger,
        T,
        &buyer,
        &pay(200),
        0,
        ExecuteMsg::Deposit { amount: 200 },
    );
    assert_eq!(r.unwrap_err(), Error::Overbuy);
    assert_eq!(record.as_ref().unwrap().amount, 5);
    assert_eq!(state.phases[0].total_minted, 5);

    // a withdrawal through the dispatcher uses the queried balance
    let r = execute(
        &mut state,
        &mut record,
        &mut ledger,
        T,
        &admin,
        &Vec::new(),
        777,
        ExecuteMsg::Withdraw { denom: "inj".to_string(), token_type: TokenKind::Native },
    );
    match r {
        Ok(ExecuteOk::Withdrawn(TransferInstr::Native { denom, amount, to })) => {
            assert_eq!(denom, "inj".to_string());
            assert_eq!(amount, 777);
            assert_eq!(to, "withdraw_wallet".to_string());
        },
        other => panic!("expected a sweep instruction, got {:?}", other),
    }
}

