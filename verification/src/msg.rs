//! Typed requests into and replies out of the library.  The host's codec
//! layer decodes caller input into these and encodes the replies.

use vstd::prelude::*;

use crate::model::{ConfigUpdateM, InstantiateMsgM, PhaseUpdateM, TokenKind};
use crate::state::{Phase, TokenInfo, WhitelistUser};

verus! {

/// Everything the deployment call provides.
#[derive(Debug)]
pub struct InstantiateMsg {
    pub admin: String,
    pub start_time: u64,
    pub end_time: u64,
    pub buy_denom: String,
    pub buy_token_type: TokenKind,
    pub tokens_per_buy: u128,
    pub token_info: TokenInfo,
    pub phases: Option<Vec<Phase>>,
    pub fees_wallet: String,
    pub withdraw_wallet: String,
    pub whitelist: Option<Vec<WhitelistUser>>,
}

/// The optional fields of a configuration update; an absent field leaves
/// the configuration untouched.
#[derive(Debug)]
pub struct ConfigUpdate {
    pub start_time: Option<u64>,
    pub end_time: Option<u64>,
    pub buy_denom: Option<String>,
    pub buy_token_type: Option<TokenKind>,
    pub tokens_per_buy: Option<u128>,
    pub token_info: Option<TokenInfo>,
    pub phases: Option<Vec<Phase>>,
    pub new_admin: Option<String>,
}

/// The optional fields of a phase update; the minted counter is never
/// updatable.
#[derive(Debug)]
pub struct PhaseUpdate {
    pub start_time: Option<u64>,
    pub end_time: Option<u64>,
    pub price_per_token: Option<u128>,
    pub supply: Option<u64>,
    pub address_list: Option<Vec<String>>,
    pub limit: Option<u64>,
}

/// One request against the sale, as the host's codec decodes it.
#[derive(Debug)]
pub enum ExecuteMsg {
    /// Patch any subset of the global configuration.
    UpdateConfig { config: ConfigUpdate },
    /// Append a new phase.
    AddPhase { phase: crate::state::Phase },
    /// Patch the named phase.
    UpdatePhase { name: String, update: PhaseUpdate },
    /// Remove the named phase.
    RemovePhase { name: String },
    /// Upsert a batch of whitelist entries.
    AddWhitelist { whitelist: Vec<WhitelistUser> },
    /// Remove one whitelist entry.
    RemoveFromWhitelist { address: String },
    /// Purchase `amount` units in the currently active phase.
    Deposit { amount: u64 },
    /// Toggle whether claims may be redeemed.
    FlipClaimStatus,
    /// Settle the caller's claim.
    ClaimTokens,
    /// Sweep the contract's held balance of an asset.
    Withdraw { denom: String, token_type: TokenKind },
}

/// What a successful request reports back.
#[derive(Debug)]
pub enum ExecuteOk {
    ConfigUpdated,
    PhaseAdded,
    PhaseUpdated,
    PhaseRemoved,
    WhitelistAdded,
    /// Whether the removed address was present.
    WhitelistRemoved { found: bool },
    Deposited(DepositReceipt),
    /// The new value of the claimable flag.
    ClaimStatusFlipped { claimable: bool },
    /// The payout instruction to execute.
    Claimed(crate::state::TransferInstr),
    /// The sweep instruction to execute.
    Withdrawn(crate::state::TransferInstr),
}

/// What a successful deposit reports back.
#[derive(Debug)]
pub struct DepositReceipt {
    pub phase_name: String,
    pub amount: u64,
}

/// One phase in the full-state reply; the allow-list is reported as a count.
#[derive(Debug)]
pub struct PhaseResp {
    pub name: String,
    pub start_time: u64,
    pub end_time: u64,
    pub price_per_token: u128,
    pub supply: u64,
    pub address_list: u64,
    pub limit: u64,
    pub total_minted: u64,
}

/// The full-state reply.
#[derive(Debug)]
pub struct LaunchpadResponse {
    pub token_info: TokenInfo,
    pub buy_denom: String,
    pub buy_token_type: TokenKind,
    pub tokens_per_buy: u128,
    pub start_time: u64,
    pub end_time: u64,
    pub phases: Vec<PhaseResp>,
    pub claimable: bool,
    pub fees_wallet: String,
    pub fees_percentage: u64,
    pub withdraw_wallet: String,
    pub whitelist: Vec<WhitelistUser>,
}

/// One phase as seen by one buyer: the limit, the buyer's mint count there,
/// and whether the buyer is eligible.
#[derive(Debug)]
pub struct PhaseInformation {
    pub limit: u64,
    pub current_mint: u64,
    pub eligible: bool,
}

/// The per-buyer reply.
#[derive(Debug)]
pub struct UserInfoResponse {
    pub address: String,
    pub phases: Vec<(String, PhaseInformation)>,
    pub amount: u64,
    pub tokens: u128,
    pub claimed: bool,
}

/// The single-phase reply: the phase in full.
#[derive(Debug)]
pub struct PhaseInfoResponse {
    pub name: String,
    pub start_time: u64,
    pub end_time: u64,
    pub price_per_token: u128,
    pub supply: u64,
    pub address_list: Vec<String>,
    pub limit: u64,
    pub total_minted: u64,
}

impl DeepView for InstantiateMsg {
    type V = InstantiateMsgM;

    open spec fn deep_view(&self) -> InstantiateMsgM {
        InstantiateMsgM {
            admin: self.admin@,
            start_time: self.start_time as int,
            end_time: self.end_time as int,
            buy_denom: self.buy_denom@,
            buy_token_type: self.buy_token_type,
            tokens_per_buy: self.tokens_per_buy as int,
            token_info: self.token_info.deep_view(),
            phases: match self.phases {
                Some(v) => Some(v.deep_view()),
                None => None,
            },
            fees_wallet: self.fees_wallet@,
            withdraw_wallet: self.withdraw_wallet@,
            whitelist: match self.whitelist {
                Some(v) => Some(v.deep_view()),
                None => None,
            },
        }
    }
}

impl DeepView for ConfigUpdate {
    type V = ConfigUpdateM;

    open spec fn deep_view(&self) -> ConfigUpdateM {
        ConfigUpdateM {
            start_time: match self.start_time {
                Some(v) => Some(v as int),
                None => None,
            },
            end_time: match self.end_time {
                Some(v) => Some(v as int),
                None => None,
            },
            buy_denom: match self.buy_denom {
                Some(v) => Some(v@),
                None => None,
            },
            buy_token_type: self.buy_token_type,
            tokens_per_buy: match self.tokens_per_buy {
                Some(v) => Some(v as int),
                None => None,
            },
            token_info: match self.token_info {
                Some(v) => Some(v.deep_view()),
                None => None,
            },
            phases: match self.phases {
                Some(v) => Some(v.deep_view()),
                None => None,
            },
            new_admin: match self.new_admin {
                Some(v) => Some(v@),
                None => None,
            },
        }
    }
}

impl DeepView for PhaseUpdate {
    type V = PhaseUpdateM;

    open spec fn deep_view(&self) -> PhaseUpdateM {
        PhaseUpdateM {
            start_time: match self.start_time {
                Some(v) => Some(v as int),
                None => None,
            },
            end_time: match self.end_time {
                Some(v) => Some(v as int),
                None => None,
            },
            price_per_token: match self.price_per_token {
                Some(v) => Some(v as int),
                None => None,
            },
            supply: match self.supply {
                Some(v) => Some(v as int),
                None => None,
            },
            address_list: match self.address_list {
                Some(v) => Some(v.deep_view()),
                None => None,
            },
            limit: match self.limit {
                Some(v) => Some(v as int),
                None => None,
            },
        }
    }
}

} // verus!
