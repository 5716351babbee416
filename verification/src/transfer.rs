//! The boundary to the host's message types: a verified transfer
//! instruction is converted into a `cosmwasm_std::CosmosMsg` that the host
//! executes.  Only the construction of the host's opaque message values is
//! trusted; which instruction is built, and from which values, is verified.

use vstd::prelude::*;

use crate::error::Error;
use crate::state::TransferInstr;

verus! {

#[verifier::external_type_specification]
#[verifier::external_body]
#[verifier::reject_recursive_types(T)]
pub struct ExCosmosMsg<T>(cosmwasm_std::CosmosMsg<T>);

#[verifier::external_type_specification]
#[verifier::external_body]
pub struct ExEmpty(cosmwasm_std::Empty);

/// The bank-send message that `cosmwasm_std` builds from these values.
pub uninterp spec fn bank_send_msg_of(denom: Seq<char>, amount: u128, to: Seq<char>) -> cosmwasm_std::CosmosMsg;

/// The token-transfer message that `cosmwasm_std` and `cw20` build from
/// these values.
pub uninterp spec fn cw20_transfer_msg_of(
    contract: Seq<char>,
    amount: u128,
    recipient: Seq<char>,
) -> cosmwasm_std::CosmosMsg;

/// Relies on cosmwasm_std::BankMsg::Send: a bank send of one coin of
/// `denom` to `to`; the built message depends on the arguments alone.
#[verifier::external_body]
fn bank_send_msg(denom: &String, amount: u128, to: &String) -> (r: cosmwasm_std::CosmosMsg)
    ensures
        r == bank_send_msg_of(denom@, amount, to@),
{
    cosmwasm_std::CosmosMsg::Bank(cosmwasm_std::BankMsg::Send {
        to_address: to.clone(),
        amount: vec![cosmwasm_std::Coin {
            denom: denom.clone(),
            amount: cosmwasm_std::Uint128::new(amount),
        }],
    })
}

/// Relies on cw20::Cw20ExecuteMsg::Transfer, cosmwasm_std::to_json_binary
/// and cosmwasm_std::WasmMsg::Execute: asks token contract `contract` to
/// move `amount` to `recipient`; the built message depends on the
/// arguments alone, and only the JSON encoding can fail.
#[verifier::external_body]
fn cw20_transfer_msg(contract: &String, amount: u128, recipient: &String) -> (r: Result<
    cosmwasm_std::CosmosMsg,
    Error,
>)
    ensures
        r matches Ok(m) ==> m == cw20_transfer_msg_of(contract@, amount, recipient@),
        r matches Err(e) ==> e == Error::SerializationFailed,
{
    let transfer = cw20::Cw20ExecuteMsg::Transfer {
        recipient: recipient.clone(),
        amount: cosmwasm_std::Uint128::new(amount),
    };
    match cosmwasm_std::to_json_binary(&transfer) {
        Ok(bin) => Ok(cosmwasm_std::CosmosMsg::Wasm(cosmwasm_std::WasmMsg::Execute {
            contract_addr: contract.clone(),
            msg: bin,
            funds: Vec::new(),
        })),
        Err(_) => Err(Error::SerializationFailed),
    }
}

/// Convert a verified transfer instruction into the host's message type: a
/// native instruction becomes a bank send, which always encodes; a token
/// instruction becomes a contract execution, whose JSON encoding is the
/// only thing that can fail.
pub fn cosmos_msg_of(instr: &TransferInstr) -> (r: Result<cosmwasm_std::CosmosMsg, Error>)
    ensures
        match instr {
            TransferInstr::Native { denom, amount, to } => r == Ok::<_, Error>(
                bank_send_msg_of(denom@, *amount, to@),
            ),
            TransferInstr::Cw20 { contract, amount, recipient } => {
                &&& r matches Ok(m) ==> m == cw20_transfer_msg_of(contract@, *amount, recipient@)
                &&& r matches Err(e) ==> e == Error::SerializationFailed
            },
        },
{
    match instr {
        TransferInstr::Native { denom, amount, to } => Ok(bank_send_msg(denom, *amount, to)),
        TransferInstr::Cw20 { contract, amount, recipient } => cw20_transfer_msg(
            contract,
            *amount,
            recipient,
        ),
    }
}

} // verus!
