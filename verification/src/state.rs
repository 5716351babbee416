//! The durable records of the sale, as the host stores and reloads them.
//!
//! Addresses are carried as plain strings (the host authenticates them
//! before the library runs) and amounts as machine integers.  Each record's
//! mathematical model lives in `model`; `deep_view` is the bridge.

use vstd::prelude::*;

use crate::model::{
    CoinM, PhaseBuyM, PhaseM, StateM, TokenInfoM, TokenKind, TransferInstrM, UserM, UserTokenM,
    WhitelistUserM, state_wf, user_wf,
};

verus! {

/// Metadata of the token being sold.
#[derive(Debug)]
pub struct TokenInfo {
    pub name: String,
    pub symbol: String,
    /// Settlement denomination: the token contract that pays out claims.
    pub denom: Option<String>,
    /// Decimal count of the settlement asset.
    pub decimals: Option<u8>,
    pub description: String,
    pub supply: u64,
}

/// One purchase window of the sale.
#[derive(Debug)]
pub struct Phase {
    /// Unique name; list order is semantically meaningful.
    pub name: String,
    pub start_time: u64,
    pub end_time: u64,
    /// Payment owed per unit purchased.
    pub price_per_token: u128,
    /// Maximum total units sellable in this phase.
    pub supply: u64,
    /// Eligibility allow-list; empty means open to anyone.
    pub address_list: Vec<String>,
    /// Maximum units one buyer may purchase, absent a whitelist override.
    pub limit: u64,
    /// Cumulative units sold so far.
    pub total_minted: u64,
}

/// One whitelist entry: a per-address override purchase allowance.
#[derive(Debug)]
pub struct WhitelistUser {
    pub address: String,
    pub amount: u64,
}

/// The singleton sale configuration record.
#[derive(Debug)]
pub struct State {
    pub admin: String,
    pub token_info: TokenInfo,
    /// Accepted payment denomination.
    pub buy_denom: String,
    pub buy_token_type: TokenKind,
    /// Owed tokens per unit of payment amount.
    pub tokens_per_buy: u128,
    pub start_time: u64,
    pub end_time: u64,
    pub phases: Vec<Phase>,
    /// Whether accrued balances may currently be redeemed.
    pub claimable: bool,
    pub fees_wallet: String,
    pub fees_percentage: u64,
    pub withdraw_wallet: String,
    pub whitelist: Vec<WhitelistUser>,
}

/// One buyer's purchase counter for one phase.
#[derive(Debug)]
pub struct PhaseBuy {
    pub name: String,
    pub amount: u64,
}

/// One buyer's record, created lazily on first deposit.
#[derive(Debug)]
pub struct User {
    pub buy_phases: Vec<PhaseBuy>,
    /// Lifetime units purchased across all phases.
    pub amount: u64,
    /// Cumulative owed-token balance.
    pub tokens: u128,
    /// One-shot flag, true once the claim has been settled.
    pub claimed: bool,
}

/// One aggregate-ledger entry: a buyer's owed-token total, kept for
/// external enumeration.
#[derive(Debug)]
pub struct UserToken {
    pub address: String,
    pub tokens: u128,
}

/// One attached payment coin.
#[derive(Debug)]
pub struct Coin {
    pub denom: String,
    pub amount: u128,
}

/// An asset-transfer instruction for the host to execute.
#[derive(Debug)]
pub enum TransferInstr {
    /// Pay out `amount` of the native currency `denom` to `to`.
    Native { denom: String, amount: u128, to: String },
    /// Ask token contract `contract` to move `amount` to `recipient`.
    Cw20 { contract: String, amount: u128, recipient: String },
}

impl DeepView for TokenInfo {
    type V = TokenInfoM;

    open spec fn deep_view(&self) -> TokenInfoM {
        TokenInfoM {
            name: self.name@,
            symbol: self.symbol@,
            denom: match self.denom {
                Some(d) => Some(d@),
                None => None,
            },
            decimals: match self.decimals {
                Some(d) => Some(d as int),
                None => None,
            },
            description: self.description@,
            supply: self.supply as int,
        }
    }
}

impl DeepView for Phase {
    type V = PhaseM;

    open spec fn deep_view(&self) -> PhaseM {
        PhaseM {
            name: self.name@,
            start_time: self.start_time as int,
            end_time: self.end_time as int,
            price_per_token: self.price_per_token as int,
            supply: self.supply as int,
            address_list: self.address_list.deep_view(),
            limit: self.limit as int,
            total_minted: self.total_minted as int,
        }
    }
}

impl DeepView for WhitelistUser {
    type V = WhitelistUserM;

    open spec fn deep_view(&self) -> WhitelistUserM {
        WhitelistUserM { address: self.address@, amount: self.amount as int }
    }
}

impl DeepView for State {
    type V = StateM;

    open spec fn deep_view(&self) -> StateM {
        StateM {
            admin: self.admin@,
            token_info: self.token_info.deep_view(),
            buy_denom: self.buy_denom@,
            buy_token_type: self.buy_token_type,
            tokens_per_buy: self.tokens_per_buy as int,
            start_time: self.start_time as int,
            end_time: self.end_time as int,
            phases: self.phases.deep_view(),
            claimable: self.claimable,
            fees_wallet: self.fees_wallet@,
            fees_percentage: self.fees_percentage as int,
            withdraw_wallet: self.withdraw_wallet@,
            whitelist: self.whitelist.deep_view(),
        }
    }
}

impl DeepView for PhaseBuy {
    type V = PhaseBuyM;

    open spec fn deep_view(&self) -> PhaseBuyM {
        PhaseBuyM { name: self.name@, amount: self.amount as int }
    }
}

impl DeepView for User {
    type V = UserM;

    open spec fn deep_view(&self) -> UserM {
        UserM {
            buy_phases: self.buy_phases.deep_view(),
            amount: self.amount as int,
            tokens: self.tokens as int,
            claimed: self.claimed,
        }
    }
}

impl DeepView for UserToken {
    type V = UserTokenM;

    open spec fn deep_view(&self) -> UserTokenM {
        UserTokenM { address: self.address@, tokens: self.tokens as int }
    }
}

impl DeepView for Coin {
    type V = CoinM;

    open spec fn deep_view(&self) -> CoinM {
        CoinM { denom: self.denom@, amount: self.amount as int }
    }
}

impl DeepView for TransferInstr {
    type V = TransferInstrM;

    open spec fn deep_view(&self) -> TransferInstrM {
        match self {
            TransferInstr::Native { denom, amount, to } => TransferInstrM::Native {
                denom: denom@,
                amount: *amount as int,
                to: to@,
            },
            TransferInstr::Cw20 { contract, amount, recipient } => TransferInstrM::Cw20 {
                contract: contract@,
                amount: *amount as int,
                recipient: recipient@,
            },
        }
    }
}

impl State {
    /// The configuration's invariant, stated over its model.
    pub open spec fn wf(&self) -> bool {
        state_wf(self.deep_view())
    }
}

impl User {
    /// The buyer record's invariant, stated over its model.
    pub open spec fn wf(&self) -> bool {
        user_wf(self.deep_view())
    }
}

} // verus!
