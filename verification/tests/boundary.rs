use cosmwasm_std::{BankMsg, CosmosMsg, Uint128, WasmMsg};
use launchpad::contract::transfer_token_message;
use launchpad::model::TokenKind;
use launchpad::state::{Phase, TransferInstr};
use launchpad::transfer::cosmos_msg_of;
use launchpad::utils::{count_allowed_user_buy, current_phase};

const T: u64 = 1_000_000;

fn phase(name: &str, start: u64, end: u64, list: Vec<&str>, limit: u64) -> Phase {
    Phase {
        name: name.to_string(),
        start_time: start,
        end_time: end,
        price_per_token: 1,
        supply: 100,
        address_list: list.into_iter().map(|a| a.to_string()).collect(),
        limit,
        total_minted: 0,
    }
}

#[test]
fn current_phase_picks_first_match() {
    // overlapping windows: list order is the tie-break
    let phases = vec![
        phase("first", T, T + 10, vec![], 1),
        phase("second", T, T + 20, vec![], 1),
    ];
    let hit = current_phase(T + 5, phases).unwrap();
    assert_eq!(hit.name, "first".to_string());

    let phases = vec![
        phase("first", T, T + 10, vec![], 1),
        phase("second", T, T + 20, vec![], 1),
    ];
    let hit = current_phase(T + 15, phases).unwrap();
    assert_eq!(hit.name, "second".to_string());

    let phases = vec![phase("first", T, T + 10, vec![], 1)];
    assert!(current_phase(T + 11, phases).is_none());
}

#[test]
fn count_allowed_user_buy_sums_eligible_limits() {
    let phases = vec![
        phase("gated", T, T + 10, vec!["addr1"], 5),
        phase("other", T, T + 10, vec!["addr2"], 7),
        phase("open", T, T + 10, vec![], 11),
    ];
    assert_eq!(count_allowed_user_buy(&"addr1".to_string(), &phases), 16);
    assert_eq!(count_allowed_user_buy(&"addr2".to_string(), &phases), 18);
    assert_eq!(count_allowed_user_buy(&"nobody".to_string(), &phases), 11);
}

#[test]
fn transfer_message_kinds() {
    let native = transfer_token_message("inj".to_string(), TokenKind::Native, 9, "w".to_string());
    assert!(matches!(native, TransferInstr::Native { .. }));
    let tokenized = transfer_token_message("c".to_string(), TokenKind::Cw20, 9, "w".to_string());
    assert!(matches!(tokenized, TransferInstr::Cw20 { .. }));
}

#[test]
fn cosmos_msg_bank_send() {
    let instr = TransferInstr::Native {
        denom: "inj".to_string(),
        amount: 1234,
        to: "wallet".to_string(),
    };
    let msg = cosmos_msg_of(&instr).unwrap();
    match msg {
        CosmosMsg::Bank(BankMsg::Send { to_address, amount }) => {
            assert_eq!(to_address, "wallet".to_string());
            assert_eq!(amount.len(), 1);
            assert_eq!(amount[0].denom, "inj".to_string());
            assert_eq!(amount[0].amount, Uint128::new(1234));
        },
        other => panic!("expected a bank send, got {:?}", other),
    }
}

#[test]
fn cosmos_msg_token_transfer() {
    let instr = TransferInstr::Cw20 {
        contract: "tokencontract".to_string(),
        amount: 77,
        recipient: "buyer".to_string(),
    };
    let msg = cosmos_msg_of(&instr).unwrap();
    match msg {
        CosmosMsg::Wasm(WasmMsg::Execute { contract_addr, msg, funds }) => {
            assert_eq!(contract_addr, "tokencontract".to_string());
            assert!(funds.is_empty());
            let body = String::from_utf8(msg.to_vec()).unwrap();
            assert!(body.contains("transfer"));
            assert!(body.contains("buyer"));
            assert!(body.contains("77"));
        },
        other => panic!("expected a contract execution, got {:?}", other),
    }
}
