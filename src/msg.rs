use vstd::prelude::*;

use crate::error::{error_message, ContractError};
use crate::position::unbonded;
use crate::state::{BondStatus, Claim, NextClaim, Snapshot, TokenInfo};

verus! {

/// The message of a response that reports no error.
pub const SUCCESS: &'static str = "success";

/// The message of a response that reports no error.
pub open spec fn success() -> Seq<char> {
    "success"@
}

fn success_text() -> (r: String)
    ensures
        r@ == success(),
{
    String::from_str(SUCCESS)
}

fn error_text(e: ContractError) -> (r: String)
    ensures
        r@ == error_message(e),
{
    e.to_message()
}

/// The settings a contract is created with.
pub struct InstantiateMsg {
    pub cycle_length_in_seconds: u64,
    pub period_length_in_cycles: u64,
    pub white_listed_nft_contract: String,
    pub rewards_token_contract: String,
}

/// The questions the contract answers.
pub enum QueryMsg {
    GetConfig {},
    GetCurrentCycleAndPeriod {},
    GetAllGrants {},
    GetRewardsSchedule {},
    GetMaxComputePeriod {},
    GetUnbondingDuration {},
    StartTime {},
    Disable {},
    TotalRewardsPool {},
    WithdrawRewardsPoolAmount {},
    StakerHistory { staker: String, token_id: String },
    TokenInfo { token_id: String },
    EstimateRewards { periods: u64, staker: String, token_id: String },
    NextClaim { staker: String, token_id: String },
    NumberOfStakedNfts {},
    StakedAllNftInfo { token_id: String },
    StakedNftsByOwner { staker: String },
}

/// A change of settings: each given field replaces the current one.
pub struct SetConfigMsg {
    pub cycle_length_in_seconds: Option<u64>,
    pub period_length_in_cycles: Option<u64>,
    pub white_listed_nft_contract: Option<String>,
    pub rewards_token_contract: Option<String>,
}

/// A token id with its ledger record.
pub struct TokenInfoMsg {
    pub token_id: String,
    pub token_info: TokenInfo,
}

impl TokenInfoMsg {
    /// An empty token id with an unowned record.
    pub fn default() -> (r: TokenInfoMsg)
        ensures
            r.token_id@ == Seq::<char>::empty(),
            r.token_info.owner@ == Seq::<char>::empty(),
            !r.token_info.is_staked,
            r.token_info.deposit_cycle == 0,
            r.token_info.withdraw_cycle == 0,
            r.token_info.bond_status == BondStatus::Unspecified,
            r.token_info.req_unbond_time == 0,
    {
        TokenInfoMsg { token_id: String::new(), token_info: TokenInfo::default() }
    }
}

/// The outcome of recording a stake-state change.
pub struct UpdateHistoriesMsg {
    pub staker: String,
    pub current_cycle: u64,
    pub staker_histories_stake: bool,
}

pub struct ConfigResponse {
    pub owner: String,
    pub cycle_length_in_seconds: u64,
    pub period_length_in_cycles: u64,
    pub white_listed_nft_contract: String,
    pub rewards_token_contract: String,
}

pub struct GetCurrentCycleAndPeriodResponse {
    pub current_cycle: u64,
    pub current_period: u64,
    pub res_msg: String,
}

impl GetCurrentCycleAndPeriodResponse {
    pub fn new(current_cycle: u64, current_period: u64) -> (r: Self)
        ensures
            r.current_cycle == current_cycle,
            r.current_period == current_period,
            r.res_msg@ == success(),
    {
        GetCurrentCycleAndPeriodResponse { current_cycle, current_period, res_msg: success_text() }
    }

    pub fn not_started() -> (r: Self)
        ensures
            r.current_cycle == 0,
            r.current_period == 0,
            r.res_msg@ == error_message(ContractError::NotStarted {}),
    {
        GetCurrentCycleAndPeriodResponse {
            current_cycle: 0,
            current_period: 0,
            res_msg: error_text(ContractError::NotStarted {}),
        }
    }

    pub fn with_err(e: ContractError) -> (r: Self)
        ensures
            r.current_cycle == 0,
            r.current_period == 0,
            r.res_msg@ == error_message(e),
    {
        GetCurrentCycleAndPeriodResponse { current_cycle: 0, current_period: 0, res_msg: error_text(e) }
    }
}

pub struct RewardsScheduleResponse {
    pub rewards_per_cycle: u128,
    pub res_msg: String,
}

impl RewardsScheduleResponse {
    pub fn new(rewards_per_cycle: u128) -> (r: Self)
        ensures
            r.rewards_per_cycle == rewards_per_cycle,
            r.res_msg@ == success(),
    {
        RewardsScheduleResponse { rewards_per_cycle, res_msg: success_text() }
    }

    pub fn none_rewards_schedule() -> (r: Self)
        ensures
            r.rewards_per_cycle == 0,
            r.res_msg@ == error_message(ContractError::NoneRewardsSchedule {}),
    {
        RewardsScheduleResponse {
            rewards_per_cycle: 0,
            res_msg: error_text(ContractError::NoneRewardsSchedule {}),
        }
    }
}

pub struct MaxComputePeriodResponse {
    pub max_compute_period: u64,
}

pub struct UnbondingDurationResponse {
    pub unbonding_duration: u64,
}

pub struct StartTimeResponse {
    pub start: bool,
    pub start_time: u64,
    pub now_time: u64,
    pub res_msg: String,
}

impl StartTimeResponse {
    pub fn new(start_timestamp: u64, now_time: u64) -> (r: Self)
        ensures
            r.start,
            r.start_time == start_timestamp,
            r.now_time == now_time,
            r.res_msg@ == success(),
    {
        StartTimeResponse { start: true, start_time: start_timestamp, now_time, res_msg: success_text() }
    }

    pub fn not_started(now_time: u64) -> (r: Self)
        ensures
            !r.start,
            r.start_time == 0,
            r.now_time == now_time,
            r.res_msg@ == error_message(ContractError::NotStarted {}),
    {
        StartTimeResponse {
            start: false,
            start_time: 0,
            now_time,
            res_msg: error_text(ContractError::NotStarted {}),
        }
    }
}

pub struct DisableResponse {
    pub disable: bool,
    pub res_msg: String,
}

impl DisableResponse {
    pub fn new(disable: bool) -> (r: Self)
        ensures
            r.disable == disable,
            r.res_msg@ == success(),
    {
        DisableResponse { disable, res_msg: success_text() }
    }

    pub fn not_started() -> (r: Self)
        ensures
            r.disable,
            r.res_msg@ == error_message(ContractError::NotStarted {}),
    {
        DisableResponse { disable: true, res_msg: error_text(ContractError::NotStarted {}) }
    }
}

pub struct TotalRewardsPoolResponse {
    pub total_rewards_pool: u128,
    pub res_msg: String,
}

impl TotalRewardsPoolResponse {
    pub fn new(total_rewards_pool: u128) -> (r: Self)
        ensures
            r.total_rewards_pool == total_rewards_pool,
            r.res_msg@ == success(),
    {
        TotalRewardsPoolResponse { total_rewards_pool, res_msg: success_text() }
    }

    pub fn empty_rewards_pool() -> (r: Self)
        ensures
            r.total_rewards_pool == 0,
            r.res_msg@ == error_message(ContractError::EmptyRewardsPool {}),
    {
        TotalRewardsPoolResponse {
            total_rewards_pool: 0,
            res_msg: error_text(ContractError::EmptyRewardsPool {}),
        }
    }
}

pub struct WithdrawRewardsPoolResponse {
    pub withdraw_rewards_pool_amount: u128,
    pub res_msg: String,
}

impl WithdrawRewardsPoolResponse {
    pub fn new(withdraw_rewards_pool_amount: u128) -> (r: Self)
        ensures
            r.withdraw_rewards_pool_amount == withdraw_rewards_pool_amount,
            r.res_msg@ == success(),
    {
        WithdrawRewardsPoolResponse { withdraw_rewards_pool_amount, res_msg: success_text() }
    }

    pub fn with_err(e: ContractError) -> (r: Self)
        ensures
            r.withdraw_rewards_pool_amount == 0,
            r.res_msg@ == error_message(e),
    {
        WithdrawRewardsPoolResponse { withdraw_rewards_pool_amount: 0, res_msg: error_text(e) }
    }
}

pub struct NextClaimResponse {
    pub next_claim: NextClaim,
    pub res_msg: String,
}

impl NextClaimResponse {
    pub fn new(next_claim: NextClaim) -> (r: Self)
        ensures
            r.next_claim == next_claim,
            r.res_msg@ == success(),
    {
        NextClaimResponse { next_claim, res_msg: success_text() }
    }

    pub fn empty_next_claim() -> (r: Self)
        ensures
            r.next_claim == (NextClaim { period: 0, staker_snapshot_index: 0 }),
            r.res_msg@ == error_message(ContractError::EmptyNextClaim {}),
    {
        NextClaimResponse {
            next_claim: NextClaim::default(),
            res_msg: error_text(ContractError::EmptyNextClaim {}),
        }
    }
}

pub struct StakerHistoryResponse {
    pub staker_tokenid_key: String,
    pub staker_history: Vec<Snapshot>,
    pub res_msg: String,
}

impl StakerHistoryResponse {
    pub fn new(staker_tokenid_key: String, staker_history: Vec<Snapshot>) -> (r: Self)
        ensures
            r.staker_tokenid_key == staker_tokenid_key,
            r.staker_history@ == staker_history@,
            r.res_msg@ == success(),
    {
        StakerHistoryResponse { staker_tokenid_key, staker_history, res_msg: success_text() }
    }

    pub fn have_not_history(staker_tokenid_key: String) -> (r: Self)
        ensures
            r.staker_tokenid_key == staker_tokenid_key,
            r.staker_history@.len() == 0,
            r.res_msg@ == error_message(ContractError::HaveNotHistory {}),
    {
        StakerHistoryResponse {
            staker_tokenid_key,
            staker_history: Vec::new(),
            res_msg: error_text(ContractError::HaveNotHistory {}),
        }
    }
}

pub struct TokenInfosResponse {
    pub token_id: String,
    pub token_info: TokenInfo,
    pub is_reached_status_unbonded: Option<bool>,
    pub res_msg: String,
}

/// The unbonding duration of a token has passed at `now`.
pub open spec fn unbonding_reached(t: TokenInfo, now: u64, unbonding_duration: u64) -> bool {
    t.bond_status == BondStatus::Unbonding && now > t.req_unbond_time + unbonding_duration
}

impl TokenInfosResponse {
    /// Reports a staked token. A token whose unbonding duration has passed
    /// is reported as unbonded; whether the token may complete its exit is
    /// unknown for a bonded token and known for the others.
    pub fn new(token_id: String, token_info: TokenInfo, now: u64, unbonding_duration: u64) -> (r:
        Self)
        ensures
            r.token_id == token_id,
            r.token_info == if unbonding_reached(token_info, now, unbonding_duration) {
                unbonded(token_info)
            } else {
                token_info
            },
            r.is_reached_status_unbonded == if token_info.bond_status == BondStatus::Bonded {
                None
            } else {
                Some(
                    unbonding_reached(token_info, now, unbonding_duration) || token_info.bond_status
                        == BondStatus::Unbonded,
                )
            },
            r.res_msg@ == success(),
    {
        let reached = token_info.bond_status == BondStatus::Unbonding && now
            > token_info.req_unbond_time && now - token_info.req_unbond_time > unbonding_duration;
        let status = token_info.bond_status;
        let mut status_unbonded: Option<bool> = Some(false);
        let mut info = token_info;
        if reached {
            info = TokenInfo { bond_status: BondStatus::Unbonded, ..info };
            status_unbonded = Some(true);
        }
        if status == BondStatus::Unbonded {
            status_unbonded = Some(true);
        }
        if status == BondStatus::Bonded {
            status_unbonded = None;
        }
        TokenInfosResponse {
            token_id,
            token_info: info,
            is_reached_status_unbonded: status_unbonded,
            res_msg: success_text(),
        }
    }

    pub fn unstaked_token_id(token_id: String, token_info: TokenInfo) -> (r: Self)
        ensures
            r.token_id == token_id,
            r.token_info == token_info,
            r.is_reached_status_unbonded is None,
            r.res_msg@ == error_message(ContractError::UnstakedTokenId {}),
    {
        TokenInfosResponse {
            token_id,
            token_info,
            is_reached_status_unbonded: None,
            res_msg: error_text(ContractError::UnstakedTokenId {}),
        }
    }

    pub fn invalid_token_id(token_id: String) -> (r: Self)
        ensures
            r.token_id == token_id,
            r.token_info.owner@ == Seq::<char>::empty(),
            !r.token_info.is_staked,
            r.token_info.bond_status == BondStatus::Unspecified,
            r.is_reached_status_unbonded is None,
            r.res_msg@ == error_message(ContractError::InvalidTokenId {}),
    {
        TokenInfosResponse {
            token_id,
            token_info: TokenInfo::default(),
            is_reached_status_unbonded: None,
            res_msg: error_text(ContractError::InvalidTokenId {}),
        }
    }
}

pub struct EstimateRewardsResponse {
    pub req_staker_tokenid_key: String,
    pub claim: Claim,
    pub res_msg: String,
}

impl EstimateRewardsResponse {
    pub fn new(req_staker_tokenid_key: String, claim: Claim) -> (r: Self)
        ensures
            r.req_staker_tokenid_key == req_staker_tokenid_key,
            r.claim == claim,
            r.res_msg@ == success(),
    {
        EstimateRewardsResponse { req_staker_tokenid_key, claim, res_msg: success_text() }
    }

    pub fn invalid_claim(req_staker_tokenid_key: String) -> (r: Self)
        ensures
            r.req_staker_tokenid_key == req_staker_tokenid_key,
            r.claim == (Claim { start_period: 0, periods: 0, amount: 0 }),
            r.res_msg@ == error_message(ContractError::InvalidClaim {}),
    {
        Self::with_err(req_staker_tokenid_key, ContractError::InvalidClaim {})
    }

    pub fn not_started(req_staker_tokenid_key: String) -> (r: Self)
        ensures
            r.req_staker_tokenid_key == req_staker_tokenid_key,
            r.claim == (Claim { start_period: 0, periods: 0, amount: 0 }),
            r.res_msg@ == error_message(ContractError::NotStarted {}),
    {
        Self::with_err(req_staker_tokenid_key, ContractError::NotStarted {})
    }

    pub fn disabled(req_staker_tokenid_key: String) -> (r: Self)
        ensures
            r.req_staker_tokenid_key == req_staker_tokenid_key,
            r.claim == (Claim { start_period: 0, periods: 0, amount: 0 }),
            r.res_msg@ == error_message(ContractError::Disabled {}),
    {
        Self::with_err(req_staker_tokenid_key, ContractError::Disabled {})
    }

    pub fn with_err(req_staker_tokenid_key: String, e: ContractError) -> (r: Self)
        ensures
            r.req_staker_tokenid_key == req_staker_tokenid_key,
            r.claim == (Claim { start_period: 0, periods: 0, amount: 0 }),
            r.res_msg@ == error_message(e),
    {
        EstimateRewardsResponse { req_staker_tokenid_key, claim: Claim::default(), res_msg: error_text(e) }
    }
}

pub struct NumberOfStakedNftsResponse {
    pub number_of_staked_nfts: u128,
    pub res_msg: String,
}

impl NumberOfStakedNftsResponse {
    pub fn new(number_of_staked_nfts: u128) -> (r: Self)
        ensures
            r.number_of_staked_nfts == number_of_staked_nfts,
            r.res_msg@ == success(),
    {
        NumberOfStakedNftsResponse { number_of_staked_nfts, res_msg: success_text() }
    }

    pub fn not_started() -> (r: Self)
        ensures
            r.number_of_staked_nfts == 0,
            r.res_msg@ == error_message(ContractError::NotStarted {}),
    {
        NumberOfStakedNftsResponse {
            number_of_staked_nfts: 0,
            res_msg: error_text(ContractError::NotStarted {}),
        }
    }
}

pub struct StakedNftsByOwnerResponse {
    pub staked_nfts: Vec<TokenInfoMsg>,
    pub res_msg: String,
}

impl StakedNftsByOwnerResponse {
    pub fn new(staked_nfts: Vec<TokenInfoMsg>) -> (r: Self)
        ensures
            r.staked_nfts@ == staked_nfts@,
            r.res_msg@ == success(),
    {
        StakedNftsByOwnerResponse { staked_nfts, res_msg: success_text() }
    }
}

pub struct MigrateMsg {}

} // verus!
