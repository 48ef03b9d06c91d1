use vstd::prelude::*;

use crate::text::{bool_str, bool_text, decimal, decimal_text};

verus! {

/// Every way an operation of the staking engine can be refused.
#[derive(Debug, PartialEq)]
pub enum ContractError {
    Unauthorized {},
    CycleLengthInvalid { min_cycle_length: u64, cycle_length_in_seconds: u64 },
    PeriodLengthInvalid { min_period: u64, period_length_in_cycles: u64 },
    CycleNotZero {},
    TimestampPreceesContractStart {},
    NoneRewardsSchedule {},
    AlreadyStarted {},
    NotStarted {},
    Disabled {},
    CannotEnable { disable: bool },
    InvalidRewardsTokenContract { rewards_token_contract: String, requester: String },
    InvalidWhitelistedContract { white_listed_contract: String, requester: String },
    AlreadyStaked {},
    UnstakedTokenCooldown {},
    InvalidTokenId {},
    UnstakedTokenId {},
    TokenSteelFrozen {},
    InvalidNftOwner { requester: String, nft_owner: String },
    InvalidClaim {},
    EmptyNextClaim {},
    NoAmountClaim {},
    InsufficientRewardsPool { rewards_pool_balance: u128, claim_amount: u128 },
    HaveNotHistory {},
    InvalidRewardsSchedule {},
    EmptyRewardsPool {},
    InvalidMaxPeriod { periods: u64, max_compute_period: u64 },
    InvalidSetMaxPeriod {},
    AlreadyGranted { address: String },
    InvalidGrantedAddress { address: String },
    NotReachUnbondingTime {},
    TokenIdIsUnbonding {},
    /// A reward total does not fit in 128 bits.
    RewardsOverflow {},
}

/// The text that reports an error.
pub open spec fn error_message(e: ContractError) -> Seq<char> {
    match e {
        ContractError::Unauthorized {} => "Unauthorized address"@,
        ContractError::CycleLengthInvalid { min_cycle_length, cycle_length_in_seconds } => "cycle length is invalid, at least "@ + decimal(min_cycle_length as nat) + " seconds > request "@ + decimal(cycle_length_in_seconds as nat) + " seconds"@,
        ContractError::PeriodLengthInvalid { min_period, period_length_in_cycles } => "period length is invalid, at least "@ + decimal(min_period as nat) + " cycles > request "@ + decimal(period_length_in_cycles as nat) + " cycles"@,
        ContractError::CycleNotZero {} => "cycle cannot be zero"@,
        ContractError::TimestampPreceesContractStart {} => "timestamp preceeds contract start"@,
        ContractError::NoneRewardsSchedule {} => "rewards schedule is null"@,
        ContractError::AlreadyStarted {} => "already started"@,
        ContractError::NotStarted {} => "not started, run start()"@,
        ContractError::Disabled {} => "disabled"@,
        ContractError::CannotEnable { disable } => "cannot enable, disable state is "@ + bool_text(disable),
        ContractError::InvalidRewardsTokenContract { rewards_token_contract, requester } => "invalid cw20 contract, rewards token contract is "@ + rewards_token_contract@ + ", but request is "@ + requester@,
        ContractError::InvalidWhitelistedContract { white_listed_contract, requester } => "invalid cw721 contract, whitelisted contract is "@ + white_listed_contract@ + ", but request is "@ + requester@,
        ContractError::AlreadyStaked {} => "token id is already staked"@,
        ContractError::UnstakedTokenCooldown {} => "unstaked token cooldown"@,
        ContractError::InvalidTokenId {} => "invalid token id"@,
        ContractError::UnstakedTokenId {} => "unstaked token id"@,
        ContractError::TokenSteelFrozen {} => "token steel frozen"@,
        ContractError::InvalidNftOwner { requester, nft_owner } => "invalid nft owner, requester is "@ + requester@ + ", but nft owner is "@ + nft_owner@,
        ContractError::InvalidClaim {} => "invalid claim of requester"@,
        ContractError::EmptyNextClaim {} => "next claim is empty"@,
        ContractError::NoAmountClaim {} => "have no amout for claim"@,
        ContractError::InsufficientRewardsPool { rewards_pool_balance, claim_amount } => "rewards pool is insufficient to claim, rewards pool balance is "@ + decimal(rewards_pool_balance as nat) + " and claim amount is "@ + decimal(claim_amount as nat),
        ContractError::HaveNotHistory {} => "have not history"@,
        ContractError::InvalidRewardsSchedule {} => "invalid rewards schedule"@,
        ContractError::EmptyRewardsPool {} => "rewards pool is empty"@,
        ContractError::InvalidMaxPeriod { periods, max_compute_period } => "request claimable periods value for rewards is invalid, request periods: "@ + decimal(periods as nat) + " is bigger than max period: "@ + decimal(max_compute_period as nat),
        ContractError::InvalidSetMaxPeriod {} => "invalid set max_compute_period, need bigger than zero"@,
        ContractError::AlreadyGranted { address } => "already granted address "@ + address@,
        ContractError::InvalidGrantedAddress { address } => "invalid granted address "@ + address@,
        ContractError::NotReachUnbondingTime {} => "not reach unbonding time"@,
        ContractError::TokenIdIsUnbonding {} => "request token id is under unbonding, or unbonded token id should execute unstake not claim"@,
        ContractError::RewardsOverflow {} => "reward total does not fit in 128 bits"@,
    }
}

impl ContractError {
    /// The text that reports this error.
    pub fn to_message(&self) -> (r: String)
        ensures
            r@ == error_message(*self),
    {
        match self {
            ContractError::Unauthorized {} => {
                let mut m = String::from_str("Unauthorized address");
                m
            },
            ContractError::CycleLengthInvalid { min_cycle_length, cycle_length_in_seconds } => {
                let mut m = String::from_str("cycle length is invalid, at least ");
                m.append(decimal_text(*min_cycle_length as u128).as_str());
                m.append(" seconds > request ");
                m.append(decimal_text(*cycle_length_in_seconds as u128).as_str());
                m.append(" seconds");
                m
            },
            ContractError::PeriodLengthInvalid { min_period, period_length_in_cycles } => {
                let mut m = String::from_str("period length is invalid, at least ");
                m.append(decimal_text(*min_period as u128).as_str());
                m.append(" cycles > request ");
                m.append(decimal_text(*period_length_in_cycles as u128).as_str());
                m.append(" cycles");
                m
            },
            ContractError::CycleNotZero {} => {
                let mut m = String::from_str("cycle cannot be zero");
                m
            },
            ContractError::TimestampPreceesContractStart {} => {
                let mut m = String::from_str("timestamp preceeds contract start");
                m
            },
            ContractError::NoneRewardsSchedule {} => {
                let mut m = String::from_str("rewards schedule is null");
                m
            },
            ContractError::AlreadyStarted {} => {
                let mut m = String::from_str("already started");
                m
            },
            ContractError::NotStarted {} => {
                let mut m = String::from_str("not started, run start()");
                m
            },
            ContractError::Disabled {} => {
                let mut m = String::from_str("disabled");
                m
            },
            ContractError::CannotEnable { disable } => {
                let mut m = String::from_str("cannot enable, disable state is ");
                m.append(bool_str(*disable));
                m
            },
            ContractError::InvalidRewardsTokenContract { rewards_token_contract, requester } => {
                let mut m = String::from_str("invalid cw20 contract, rewards token contract is ");
                m.append(rewards_token_contract.as_str());
                m.append(", but request is ");
                m.append(requester.as_str());
                m
            },
            ContractError::InvalidWhitelistedContract { white_listed_contract, requester } => {
                let mut m = String::from_str("invalid cw721 contract, whitelisted contract is ");
                m.append(white_listed_contract.as_str());
                m.append(", but request is ");
                m.append(requester.as_str());
                m
            },
            ContractError::AlreadyStaked {} => {
                let mut m = String::from_str("token id is already staked");
                m
            },
            ContractError::UnstakedTokenCooldown {} => {
                let mut m = String::from_str("unstaked token cooldown");
                m
            },
            ContractError::InvalidTokenId {} => {
                let mut m = String::from_str("invalid token id");
                m
            },
            ContractError::UnstakedTokenId {} => {
                let mut m = String::from_str("unstaked token id");
                m
            },
            ContractError::TokenSteelFrozen {} => {
                let mut m = String::from_str("token steel frozen");
                m
            },
            ContractError::InvalidNftOwner { requester, nft_owner } => {
                let mut m = String::from_str("invalid nft owner, requester is ");
                m.append(requester.as_str());
                m.append(", but nft owner is ");
                m.append(nft_owner.as_str());
                m
            },
            ContractError::InvalidClaim {} => {
                let mut m = String::from_str("invalid claim of requester");
                m
            },
            ContractError::EmptyNextClaim {} => {
                let mut m = String::from_str("next claim is empty");
                m
            },
            ContractError::NoAmountClaim {} => {
                let mut m = String::from_str("have no amout for claim");
                m
            },
            ContractError::InsufficientRewardsPool { rewards_pool_balance, claim_amount } => {
                let mut m = String::from_str("rewards pool is insufficient to claim, rewards pool balance is ");
                m.append(decimal_text(*rewards_pool_balance as u128).as_str());
                m.append(" and claim amount is ");
                m.append(decimal_text(*claim_amount as u128).as_str());
                m
            },
            ContractError::HaveNotHistory {} => {
                let mut m = String::from_str("have not history");
                m
            },
            ContractError::InvalidRewardsSchedule {} => {
                let mut m = String::from_str("invalid rewards schedule");
                m
            },
            ContractError::EmptyRewardsPool {} => {
                let mut m = String::from_str("rewards pool is empty");
                m
            },
            ContractError::InvalidMaxPeriod { periods, max_compute_period } => {
                let mut m = String::from_str("request claimable periods value for rewards is invalid, request periods: ");
                m.append(decimal_text(*periods as u128).as_str());
                m.append(" is bigger than max period: ");
                m.append(decimal_text(*max_compute_period as u128).as_str());
                m
            },
            ContractError::InvalidSetMaxPeriod {} => {
                let mut m = String::from_str("invalid set max_compute_period, need bigger than zero");
                m
            },
            ContractError::AlreadyGranted { address } => {
                let mut m = String::from_str("already granted address ");
                m.append(address.as_str());
                m
            },
            ContractError::InvalidGrantedAddress { address } => {
                let mut m = String::from_str("invalid granted address ");
                m.append(address.as_str());
                m
            },
            ContractError::NotReachUnbondingTime {} => {
                let mut m = String::from_str("not reach unbonding time");
                m
            },
            ContractError::TokenIdIsUnbonding {} => {
                let mut m = String::from_str("request token id is under unbonding, or unbonded token id should execute unstake not claim");
                m
            },
            ContractError::RewardsOverflow {} => {
                let mut m = String::from_str("reward total does not fit in 128 bits");
                m
            },
        }
    }
}

} // verus!
