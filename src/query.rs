use vstd::prelude::*;

use crate::error::{error_message, ContractError};
use crate::msg::{
    success, DisableResponse, EstimateRewardsResponse, GetCurrentCycleAndPeriodResponse,
    NextClaimResponse, NumberOfStakedNftsResponse, RewardsScheduleResponse,
    StakedNftsByOwnerResponse, StakerHistoryResponse, StartTimeResponse, TokenInfoMsg,
    TokenInfosResponse, TotalRewardsPoolResponse,
};
use crate::position::{Position, Settings};
use crate::rewards::{compute_rewards, rewards_outcome};
use crate::state::{Claim, Config, NextClaim, Snapshot, TokenInfo};
use crate::time::{current_period_of, cycle_of, get_cycle, get_period};

verus! {

/// What an estimate reports: the claim the position could make now, or
/// why it cannot.
pub open spec fn estimate_result(s: Settings, pos: Position, periods: u64, now: u64) -> Result<
    Claim,
    ContractError,
> {
    if s.start_timestamp is None {
        Err(ContractError::NotStarted {})
    } else if s.disable {
        Err(ContractError::Disabled {})
    } else if pos.next_claim is None {
        Err(ContractError::InvalidClaim {})
    } else if pos.token_info is None {
        Err(ContractError::InvalidTokenId {})
    } else {
        match rewards_outcome(
            pos.history@,
            pos.next_claim->Some_0,
            pos.token_info->Some_0,
            periods,
            now,
            s.start_timestamp->Some_0,
            s.config,
            s.rewards_per_cycle,
            s.max_compute_period,
        ) {
            Ok((c, _)) => Ok(c),
            Err(e) => Err(e),
        }
    }
}

/// Estimates what claiming up to `periods` periods at `now` would pay,
/// without touching the position: the answer depends on the arguments
/// alone, so asking again before a claim gives the same answer.
pub fn estimate_rewards(
    settings: &Settings,
    pos: &Position,
    staker_tokenid_key: String,
    periods: u64,
    now: u64,
) -> (r: EstimateRewardsResponse)
    requires
        settings.wf(),
        pos.wf(),
    ensures
        r.req_staker_tokenid_key == staker_tokenid_key,
        estimate_result(*settings, *pos, periods, now) is Ok ==> r.claim == estimate_result(
            *settings,
            *pos,
            periods,
            now,
        )->Ok_0 && r.res_msg@ == success(),
        estimate_result(*settings, *pos, periods, now) is Err ==> r.claim == (Claim {
            start_period: 0,
            periods: 0,
            amount: 0,
        }) && r.res_msg@ == error_message(estimate_result(*settings, *pos, periods, now)->Err_0),
{
    let start_timestamp = match settings.start_timestamp {
        None => {
            return EstimateRewardsResponse::not_started(staker_tokenid_key);
        },
        Some(v) => v,
    };
    if settings.disable {
        return EstimateRewardsResponse::disabled(staker_tokenid_key);
    }
    let k = match pos.next_claim {
        None => {
            return EstimateRewardsResponse::invalid_claim(staker_tokenid_key);
        },
        Some(k) => k,
    };
    let t = match &pos.token_info {
        None => {
            return EstimateRewardsResponse::with_err(
                staker_tokenid_key,
                ContractError::InvalidTokenId {},
            );
        },
        Some(t) => t,
    };
    match compute_rewards(
        &pos.history,
        k,
        t,
        periods,
        now,
        start_timestamp,
        &settings.config,
        settings.rewards_per_cycle,
        settings.max_compute_period,
    ) {
        Ok((claim, _)) => EstimateRewardsResponse::new(staker_tokenid_key, claim),
        Err(e) => EstimateRewardsResponse::with_err(staker_tokenid_key, e),
    }
}

/// Reports the cycle and period of `now`.
pub fn get_current_cycle_and_period(start_timestamp: Option<u64>, config: &Config, now: u64) -> (r:
    GetCurrentCycleAndPeriodResponse)
    requires
        config.wf(),
    ensures
        start_timestamp is None ==> r.current_cycle == 0 && r.current_period == 0 && r.res_msg@
            == error_message(ContractError::NotStarted {}),
        start_timestamp is Some && now < start_timestamp->Some_0 ==> r.current_cycle == 0
            && r.current_period == 0 && r.res_msg@ == error_message(
            ContractError::TimestampPreceesContractStart {},
        ),
        start_timestamp is Some && now >= start_timestamp->Some_0 ==> {
            &&& r.current_cycle == cycle_of(
                now as int,
                start_timestamp->Some_0 as int,
                config.cycle_length_in_seconds as int,
            )
            &&& r.current_period == current_period_of(now as int, start_timestamp->Some_0 as int, *config)
            &&& r.res_msg@ == success()
        },
{
    let start = match start_timestamp {
        None => {
            return GetCurrentCycleAndPeriodResponse::not_started();
        },
        Some(v) => v,
    };
    let current_cycle = match get_cycle(now, start, config) {
        Ok(c) => c,
        Err(e) => {
            return GetCurrentCycleAndPeriodResponse::with_err(e);
        },
    };
    let current_period = match get_period(current_cycle, config) {
        Ok(p) => p,
        Err(e) => {
            return GetCurrentCycleAndPeriodResponse::with_err(e);
        },
    };
    GetCurrentCycleAndPeriodResponse::new(current_cycle, current_period)
}

/// Reports the reward paid per staked cycle.
pub fn get_rewards_schedule(rewards_schedule: Option<u128>) -> (r: RewardsScheduleResponse)
    ensures
        rewards_schedule is None ==> r.rewards_per_cycle == 0 && r.res_msg@ == error_message(
            ContractError::NoneRewardsSchedule {},
        ),
        rewards_schedule is Some ==> r.rewards_per_cycle == rewards_schedule->Some_0 && r.res_msg@
            == success(),
{
    match rewards_schedule {
        None => RewardsScheduleResponse::none_rewards_schedule(),
        Some(v) => RewardsScheduleResponse::new(v),
    }
}

/// Reports when the contract started, if it has.
pub fn start_time(start_timestamp: Option<u64>, now: u64) -> (r: StartTimeResponse)
    ensures
        r.now_time == now,
        r.start == start_timestamp is Some,
        start_timestamp is Some ==> r.start_time == start_timestamp->Some_0 && r.res_msg@ == success(),
        start_timestamp is None ==> r.start_time == 0 && r.res_msg@ == error_message(
            ContractError::NotStarted {},
        ),
{
    match start_timestamp {
        None => StartTimeResponse::not_started(now),
        Some(v) => StartTimeResponse::new(v, now),
    }
}

/// Reports whether the contract is disabled; one that has not started counts
/// as disabled.
pub fn disable(start_timestamp: Option<u64>, disabled: bool) -> (r: DisableResponse)
    ensures
        start_timestamp is None ==> r.disable && r.res_msg@ == error_message(
            ContractError::NotStarted {},
        ),
        start_timestamp is Some ==> r.disable == disabled && r.res_msg@ == success(),
{
    if start_timestamp.is_none() {
        DisableResponse::not_started()
    } else {
        DisableResponse::new(disabled)
    }
}

/// Reports the total that was ever added to the rewards pool.
pub fn total_rewards_pool(total: Option<u128>) -> (r: TotalRewardsPoolResponse)
    ensures
        total is None ==> r.total_rewards_pool == 0 && r.res_msg@ == error_message(
            ContractError::EmptyRewardsPool {},
        ),
        total is Some ==> r.total_rewards_pool == total->Some_0 && r.res_msg@ == success(),
{
    match total {
        None => TotalRewardsPoolResponse::empty_rewards_pool(),
        Some(v) => TotalRewardsPoolResponse::new(v),
    }
}

/// Reports the claim cursor of a position.
pub fn next_claims(next_claim: Option<NextClaim>) -> (r: NextClaimResponse)
    ensures
        next_claim is None ==> r.next_claim == (NextClaim { period: 0, staker_snapshot_index: 0 })
            && r.res_msg@ == error_message(ContractError::EmptyNextClaim {}),
        next_claim is Some ==> r.next_claim == next_claim->Some_0 && r.res_msg@ == success(),
{
    match next_claim {
        None => NextClaimResponse::empty_next_claim(),
        Some(k) => NextClaimResponse::new(k),
    }
}

/// Reports the snapshot history kept under `staker_tokenid_key`.
pub fn staker_history(staker_tokenid_key: String, history: Option<Vec<Snapshot>>) -> (r:
    StakerHistoryResponse)
    ensures
        r.staker_tokenid_key == staker_tokenid_key,
        history is None ==> r.staker_history@.len() == 0 && r.res_msg@ == error_message(
            ContractError::HaveNotHistory {},
        ),
        history is Some ==> r.staker_history@ == history->Some_0@ && r.res_msg@ == success(),
{
    match history {
        None => StakerHistoryResponse::have_not_history(staker_tokenid_key),
        Some(h) => StakerHistoryResponse::new(staker_tokenid_key, h),
    }
}

/// Reports a token's ledger record; see `TokenInfosResponse::new` for a
/// staked token.
pub fn token_infos(token_id: String, token_info: Option<TokenInfo>, now: u64, unbonding_duration: u64) -> (r:
    TokenInfosResponse)
    ensures
        r.token_id == token_id,
        token_info is None ==> r.res_msg@ == error_message(ContractError::InvalidTokenId {})
            && r.is_reached_status_unbonded is None,
        token_info is Some && !token_info->Some_0.is_staked ==> r.token_info == token_info->Some_0
            && r.is_reached_status_unbonded is None && r.res_msg@ == error_message(
            ContractError::UnstakedTokenId {},
        ),
        token_info is Some && token_info->Some_0.is_staked ==> r.res_msg@ == success(),
{
    match token_info {
        None => TokenInfosResponse::invalid_token_id(token_id),
        Some(t) => {
            if t.is_staked {
                TokenInfosResponse::new(token_id, t, now, unbonding_duration)
            } else {
                TokenInfosResponse::unstaked_token_id(token_id, t)
            }
        },
    }
}

/// Reports the number of staked tokens, once the contract has started.
pub fn number_of_staked_nfts(start_timestamp: Option<u64>, number: u128) -> (r:
    NumberOfStakedNftsResponse)
    ensures
        start_timestamp is None ==> r.number_of_staked_nfts == 0 && r.res_msg@ == error_message(
            ContractError::NotStarted {},
        ),
        start_timestamp is Some ==> r.number_of_staked_nfts == number && r.res_msg@ == success(),
{
    if start_timestamp.is_none() {
        NumberOfStakedNftsResponse::not_started()
    } else {
        NumberOfStakedNftsResponse::new(number)
    }
}

/// The records among `token_infos` that `staker` owns.
pub open spec fn owned_by(token_infos: Seq<TokenInfoMsg>, staker: Seq<char>) -> Seq<TokenInfoMsg> {
    token_infos.filter(|m: TokenInfoMsg| m.token_info.owner@ == staker)
}

/// Reports the tokens that `staker` owns, in the order given.
pub fn staked_nfts_by_owner(token_infos: Vec<TokenInfoMsg>, staker: &String) -> (r:
    StakedNftsByOwnerResponse)
    ensures
        r.staked_nfts@ == owned_by(token_infos@, staker@),
        r.res_msg@ == success(),
{
    let ghost all = token_infos@;
    let count = token_infos.len();
    let mut rest = token_infos;
    let mut staked_nfts: Vec<TokenInfoMsg> = Vec::new();
    let mut taken: usize = 0;
    while rest.len() > 0
        invariant
            rest@ == all.subrange(taken as int, all.len() as int),
            0 <= taken <= all.len(),
            all.len() == count,
            staked_nfts@ == owned_by(all.subrange(0, taken as int), staker@),
        decreases rest@.len(),
    {
        let info = rest.remove(0);
        proof {
            assert(all.subrange(0, taken + 1) =~= all.subrange(0, taken as int).push(info));
            all.subrange(0, taken as int).lemma_filter_push(
                info,
                |m: TokenInfoMsg| m.token_info.owner@ == staker@,
            );
            assert(owned_by(all.subrange(0, taken + 1), staker@) == if info.token_info.owner@
                == staker@ {
                owned_by(all.subrange(0, taken as int), staker@).push(info)
            } else {
                owned_by(all.subrange(0, taken as int), staker@)
            });
        }
        if info.token_info.owner == *staker {
            staked_nfts.push(info);
        }
        taken = taken + 1;
        proof {
            assert(rest@ =~= all.subrange(taken as int, all.len() as int));
        }
    }
    proof {
        assert(all.subrange(0, taken as int) =~= all);
    }
    StakedNftsByOwnerResponse::new(staked_nfts)
}

} // verus!
