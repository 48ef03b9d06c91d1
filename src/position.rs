use vstd::prelude::*;

use crate::error::ContractError;
use crate::msg::unbonding_reached;
use crate::history::{
    compact_history, compacted, compacted_index, recorded, sorted_history, update_staker_history,
};
use crate::rewards::{
    compute_rewards, drain_outcome, drain_rewards, lemma_outcome_cursor,
    rewards_outcome,
};
use crate::state::{BondStatus, Claim, Config, NextClaim, Snapshot, TokenInfo};
use crate::time::{cycle_of, get_cycle, get_period, period_of};

verus! {

/// Everything the engine keeps about one staked token of one staker: the
/// token's ledger record, the staker's snapshot history for it and the
/// claim cursor over that history.
pub struct Position {
    pub token_info: Option<TokenInfo>,
    pub history: Vec<Snapshot>,
    pub next_claim: Option<NextClaim>,
}

impl Position {
    /// The history is ordered by cycle and a cursor, when there is one, is
    /// past period zero and points into the history.
    pub open spec fn wf(&self) -> bool {
        &&& sorted_history(self.history@)
        &&& match self.next_claim {
            Some(k) => k.period >= 1 && k.staker_snapshot_index < self.history@.len(),
            None => true,
        }
    }

    /// A position that has never been staked.
    pub fn new() -> (r: Position)
        ensures
            r.token_info is None,
            r.history@.len() == 0,
            r.next_claim is None,
            r.wf(),
    {
        Position { token_info: None, history: Vec::new(), next_claim: None }
    }
}

/// The contract-wide values an operation reads.
pub struct Settings {
    pub config: Config,
    pub start_timestamp: Option<u64>,
    pub disable: bool,
    pub rewards_per_cycle: Option<u128>,
    pub total_rewards_pool: Option<u128>,
    pub max_compute_period: u64,
    pub unbonding_duration: u64,
}

impl Settings {
    pub open spec fn wf(&self) -> bool {
        self.config.wf()
    }

    /// The cycle of `now`, once the contract has started.
    pub open spec fn cycle_at(&self, now: u64) -> int {
        cycle_of(
            now as int,
            self.start_timestamp->Some_0 as int,
            self.config.cycle_length_in_seconds as int,
        )
    }
}

/// The history of a position never runs ahead of the clock: `now` is not in
/// a cycle before its last snapshot.
pub open spec fn history_not_ahead(pos: Position, s: Settings, now: u64) -> bool {
    (s.start_timestamp is Some && now >= s.start_timestamp->Some_0 && pos.history@.len() > 0)
        ==> pos.history@.last().start_cycle <= s.cycle_at(now)
}

/// Which solvency conditions a payout must meet.
#[derive(Clone, Copy, Debug, PartialEq, Eq, Structural)]
pub enum PoolCheck {
    /// The pool holds something.
    Empty,
    /// The pool holds at least the amount.
    Insufficient,
    /// Both of the above.
    Both,
}

/// The error the solvency guard raises, if any.
pub open spec fn pool_refusal(balance: u128, aim: PoolCheck, amount: u128) -> Option<ContractError> {
    if aim != PoolCheck::Insufficient && balance == 0 {
        Some(ContractError::EmptyRewardsPool {})
    } else if aim != PoolCheck::Empty && balance < amount {
        Some(ContractError::InsufficientRewardsPool { rewards_pool_balance: balance, claim_amount: amount })
    } else {
        None
    }
}

/// Checks the reward token balance of the pool before a payout of `amount`.
pub fn check_rewards_pool_balance(balance: u128, aim: PoolCheck, amount: u128) -> (r: Result<
    (),
    ContractError,
>)
    ensures
        pool_refusal(balance, aim, amount) is Some ==> r == Err::<(), ContractError>(
            pool_refusal(balance, aim, amount)->Some_0,
        ),
        pool_refusal(balance, aim, amount) is None ==> r == Ok::<(), ContractError>(()),
{
    if aim != PoolCheck::Insufficient && balance == 0 {
        return Err(ContractError::EmptyRewardsPool {});
    }
    if aim != PoolCheck::Empty && balance < amount {
        return Err(
            ContractError::InsufficientRewardsPool { rewards_pool_balance: balance, claim_amount: amount },
        );
    }
    Ok(())
}

/// The key under which a staker's history and cursor for a token are kept.
pub fn staker_tokenid_key(staker: String, token_id: String) -> (r: String)
    ensures
        r@ == staker@ + "@"@ + token_id@,
{
    staker.concat("@").concat(token_id.as_str())
}

/// The count of staked tokens after one more is staked or one leaves.
pub fn manage_number_nfts(number_of_staked_nfts: u128, is_increase: bool) -> (r: u128)
    requires
        is_increase ==> number_of_staked_nfts < u128::MAX,
        !is_increase ==> number_of_staked_nfts > 0,
    ensures
        is_increase ==> r == number_of_staked_nfts + 1,
        !is_increase ==> r == number_of_staked_nfts - 1,
{
    if is_increase {
        number_of_staked_nfts + 1
    } else {
        number_of_staked_nfts - 1
    }
}

/// The error a stake is refused with, if any.
pub open spec fn stake_refusal(s: Settings, pos: Position, sender: String, now: u64, balance: u128) -> Option<
    ContractError,
> {
    if s.total_rewards_pool is None || balance == 0 {
        Some(ContractError::EmptyRewardsPool {})
    } else if s.rewards_per_cycle is None {
        Some(ContractError::NoneRewardsSchedule {})
    } else if sender@ != s.config.white_listed_nft_contract@ {
        Some(
            ContractError::InvalidWhitelistedContract {
                white_listed_contract: s.config.white_listed_nft_contract,
                requester: sender,
            },
        )
    } else if s.start_timestamp is None {
        Some(ContractError::NotStarted {})
    } else if s.disable {
        Some(ContractError::Disabled {})
    } else if now < s.start_timestamp->Some_0 {
        Some(ContractError::TimestampPreceesContractStart {})
    } else if pos.token_info is Some && (pos.token_info->Some_0.is_staked
        || pos.token_info->Some_0.bond_status == BondStatus::Bonded
        || pos.token_info->Some_0.bond_status == BondStatus::Unbonding) {
        Some(ContractError::AlreadyStaked {})
    } else if pos.token_info is Some && s.cycle_at(now) == pos.token_info->Some_0.withdraw_cycle {
        Some(ContractError::UnstakedTokenCooldown {})
    } else {
        None
    }
}

/// Stakes the token for `staker`, as sent by `sender` at time `now` while
/// the pool holds `pool_balance`, and returns the current cycle. The
/// history records the stake, a missing cursor starts at the current
/// period, and the token is bonded.
pub fn stake_nft(
    settings: &Settings,
    pos: &mut Position,
    sender: &String,
    staker: String,
    now: u64,
    pool_balance: u128,
) -> (r: Result<u64, ContractError>)
    requires
        settings.wf(),
        old(pos).wf(),
        history_not_ahead(*old(pos), *settings, now),
    ensures
        final(pos).wf(),
        stake_refusal(*settings, *old(pos), *sender, now, pool_balance) is Some ==> {
            &&& r == Err::<u64, ContractError>(
                stake_refusal(*settings, *old(pos), *sender, now, pool_balance)->Some_0,
            )
            &&& *final(pos) == *old(pos)
        },
        stake_refusal(*settings, *old(pos), *sender, now, pool_balance) is None ==> {
            let c = settings.cycle_at(now);
            &&& r is Ok && r->Ok_0 == c
            &&& final(pos).history@ == recorded(old(pos).history@, true, c as u64)
            &&& final(pos).token_info == Some(TokenInfo::stake_spec(staker, c as u64))
            &&& final(pos).next_claim == if old(pos).next_claim is None {
                Some(
                    NextClaim {
                        period: period_of(c, settings.config.period_length_in_cycles as int) as u64,
                        staker_snapshot_index: (final(pos).history@.len() - 1) as u64,
                    },
                )
            } else {
                old(pos).next_claim
            }
        },
{
    if settings.total_rewards_pool.is_none() {
        return Err(ContractError::EmptyRewardsPool {});
    }
    match check_rewards_pool_balance(pool_balance, PoolCheck::Empty, 0) {
        Err(e) => {
            return Err(e);
        },
        Ok(_) => {},
    }
    if settings.rewards_per_cycle.is_none() {
        return Err(ContractError::NoneRewardsSchedule {});
    }
    if !(*sender == settings.config.white_listed_nft_contract) {
        return Err(
            ContractError::InvalidWhitelistedContract {
                white_listed_contract: settings.config.white_listed_nft_contract.clone(),
                requester: sender.clone(),
            },
        );
    }
    let start_timestamp = match settings.start_timestamp {
        None => {
            return Err(ContractError::NotStarted {});
        },
        Some(t) => t,
    };
    if settings.disable {
        return Err(ContractError::Disabled {});
    }
    let current_cycle = match get_cycle(now, start_timestamp, &settings.config) {
        Err(e) => {
            return Err(e);
        },
        Ok(c) => c,
    };
    match &pos.token_info {
        Some(t) => {
            if t.is_staked || t.bond_status == BondStatus::Bonded || t.bond_status
                == BondStatus::Unbonding {
                return Err(ContractError::AlreadyStaked {});
            }
            if current_cycle == t.withdraw_cycle {
                return Err(ContractError::UnstakedTokenCooldown {});
            }
        },
        None => {},
    }
    let index = update_staker_history(&mut pos.history, true, current_cycle);
    if pos.next_claim.is_none() {
        let period = match get_period(current_cycle, &settings.config) {
            Err(e) => {
                return Err(e);
            },
            Ok(p) => p,
        };
        pos.next_claim = Some(NextClaim::new(period, index));
    }
    pos.token_info = Some(TokenInfo::stake(staker, true, current_cycle));
    Ok(current_cycle)
}

/// The unbonding duration of the token has passed at `timestamp`.
pub fn check_unbonding_end(token_info: &TokenInfo, timestamp: u64, unbonding_duration: u64) -> (r:
    Result<bool, ContractError>)
    ensures
        unbonding_reached(*token_info, timestamp, unbonding_duration) ==> r == Ok::<
            bool,
            ContractError,
        >(true),
        !unbonding_reached(*token_info, timestamp, unbonding_duration) ==> r == Err::<
            bool,
            ContractError,
        >(ContractError::NotReachUnbondingTime {}),
{
    if token_info.bond_status == BondStatus::Unbonding && timestamp > token_info.req_unbond_time
        && timestamp - token_info.req_unbond_time > unbonding_duration {
        Ok(true)
    } else {
        Err(ContractError::NotReachUnbondingTime {})
    }
}

/// What an accepted unstake did.
#[derive(Clone, Copy, Debug, PartialEq, Eq, Structural)]
pub enum UnstakeOutcome {
    /// A bonded token started unbonding; its accrual is frozen from now on.
    ExitRequested {},
    /// An unbonded token left the position, which was settled for `rewards`.
    ExitCompleted { current_cycle: u64, rewards: u128 },
}

/// The error an unstake is refused with before any reward is computed, if any.
pub open spec fn unstake_refusal(s: Settings, pos: Position, sender: String, now: u64) -> Option<
    ContractError,
> {
    let t = pos.token_info->Some_0;
    if pos.token_info is None {
        Some(ContractError::InvalidTokenId {})
    } else if t.owner@ != sender@ {
        Some(ContractError::InvalidNftOwner { requester: sender, nft_owner: t.owner })
    } else if s.start_timestamp is None {
        Some(ContractError::NotStarted {})
    } else if s.disable {
        Some(ContractError::Disabled {})
    } else if t.bond_status == BondStatus::Bonded {
        None
    } else if !unbonding_reached(t, now, s.unbonding_duration) {
        Some(ContractError::NotReachUnbondingTime {})
    } else if now < s.start_timestamp->Some_0 {
        Some(ContractError::TimestampPreceesContractStart {})
    } else if s.cycle_at(now) < t.deposit_cycle + 2 {
        Some(ContractError::TokenSteelFrozen {})
    } else {
        None
    }
}

/// The token as it stands while the exit is being completed.
pub open spec fn unbonded(t: TokenInfo) -> TokenInfo {
    TokenInfo { bond_status: BondStatus::Unbonded, ..t }
}

/// What completing the exit pays, before the solvency guard.
pub open spec fn exit_rewards(s: Settings, pos: Position, now: u64) -> Result<u128, ContractError> {
    match pos.next_claim {
        None => Ok(0),
        Some(k) => drain_outcome(
            pos.history@,
            k,
            unbonded(pos.token_info->Some_0),
            now,
            s.start_timestamp->Some_0,
            s.config,
            s.rewards_per_cycle,
            s.max_compute_period,
            0,
        ),
    }
}

/// The solvency error that stops paying `amount` out, if any.
pub open spec fn payout_refusal(balance: u128, amount: u128) -> Option<ContractError> {
    if amount != 0 {
        pool_refusal(balance, PoolCheck::Both, amount)
    } else {
        None
    }
}

/// Unstakes the token for its owner `sender` at time `now`. A bonded token
/// starts unbonding and its accrual freezes. Once the unbonding duration has
/// passed, and at least two cycles after the deposit, the exit completes:
/// the position is settled up to the exit request, the history records the
/// unstake, the token record is cleared and the cursor is deleted.
pub fn unstake_nft(
    settings: &Settings,
    pos: &mut Position,
    sender: &String,
    now: u64,
    pool_balance: u128,
) -> (r: Result<UnstakeOutcome, ContractError>)
    requires
        settings.wf(),
        old(pos).wf(),
        history_not_ahead(*old(pos), *settings, now),
    ensures
        final(pos).wf(),
        unstake_refusal(*settings, *old(pos), *sender, now) is Some ==> {
            &&& r == Err::<UnstakeOutcome, ContractError>(
                unstake_refusal(*settings, *old(pos), *sender, now)->Some_0,
            )
            &&& *final(pos) == *old(pos)
        },
        unstake_refusal(*settings, *old(pos), *sender, now) is None
            && old(pos).token_info->Some_0.bond_status == BondStatus::Bonded ==> {
            let t = old(pos).token_info->Some_0;
            &&& r == Ok::<UnstakeOutcome, ContractError>(UnstakeOutcome::ExitRequested {})
            &&& final(pos).token_info == Some(
                TokenInfo { bond_status: BondStatus::Unbonding, req_unbond_time: now, ..t },
            )
            &&& final(pos).history == old(pos).history
            &&& final(pos).next_claim == old(pos).next_claim
        },
        unstake_refusal(*settings, *old(pos), *sender, now) is None
            && old(pos).token_info->Some_0.bond_status != BondStatus::Bonded ==> {
            let t = old(pos).token_info->Some_0;
            let c = settings.cycle_at(now);
            let owed = exit_rewards(*settings, *old(pos), now);
            &&& owed is Err ==> r == Err::<UnstakeOutcome, ContractError>(owed->Err_0)
                && *final(pos) == *old(pos)
            &&& owed is Ok && payout_refusal(pool_balance, owed->Ok_0) is Some ==> r == Err::<
                UnstakeOutcome,
                ContractError,
            >(payout_refusal(pool_balance, owed->Ok_0)->Some_0) && *final(pos) == *old(pos)
            &&& owed is Ok && payout_refusal(pool_balance, owed->Ok_0) is None ==> {
                &&& r == Ok::<UnstakeOutcome, ContractError>(
                    UnstakeOutcome::ExitCompleted { current_cycle: c as u64, rewards: owed->Ok_0 },
                )
                &&& final(pos).history@ == recorded(old(pos).history@, false, c as u64)
                &&& final(pos).next_claim is None
                &&& final(pos).token_info is Some
                &&& final(pos).token_info->Some_0.owner@ == Seq::<char>::empty()
                &&& !final(pos).token_info->Some_0.is_staked
                &&& final(pos).token_info->Some_0.deposit_cycle == t.deposit_cycle
                &&& final(pos).token_info->Some_0.withdraw_cycle == c
                &&& final(pos).token_info->Some_0.bond_status == BondStatus::Unspecified
                &&& final(pos).token_info->Some_0.req_unbond_time == 0
            }
        },
{
    let t = match &pos.token_info {
        None => {
            return Err(ContractError::InvalidTokenId {});
        },
        Some(t) => t,
    };
    if !(t.owner == *sender) {
        return Err(
            ContractError::InvalidNftOwner { requester: sender.clone(), nft_owner: t.owner.clone() },
        );
    }
    let start_timestamp = match settings.start_timestamp {
        None => {
            return Err(ContractError::NotStarted {});
        },
        Some(v) => v,
    };
    if settings.disable {
        return Err(ContractError::Disabled {});
    }
    if t.bond_status == BondStatus::Bonded {
        let requested = TokenInfo::unstake_unbonding(
            t.owner.clone(),
            t.is_staked,
            t.deposit_cycle,
            t.withdraw_cycle,
            now,
        );
        pos.token_info = Some(requested);
        return Ok(UnstakeOutcome::ExitRequested {});
    }
    match check_unbonding_end(t, now, settings.unbonding_duration) {
        Err(e) => {
            return Err(e);
        },
        Ok(_) => {},
    }
    let current_cycle = match get_cycle(now, start_timestamp, &settings.config) {
        Err(e) => {
            return Err(e);
        },
        Ok(c) => c,
    };
    if current_cycle < t.deposit_cycle || current_cycle - t.deposit_cycle < 2 {
        return Err(ContractError::TokenSteelFrozen {});
    }
    let leaving = TokenInfo::unstake_unbonded(
        t.owner.clone(),
        t.is_staked,
        t.deposit_cycle,
        t.withdraw_cycle,
        t.req_unbond_time,
    );
    let rewards = match pos.next_claim {
        None => 0,
        Some(k) => match drain_rewards(
            &pos.history,
            k,
            &leaving,
            now,
            start_timestamp,
            &settings.config,
            settings.rewards_per_cycle,
            settings.max_compute_period,
        ) {
            Err(e) => {
                return Err(e);
            },
            Ok(v) => v,
        },
    };
    if rewards != 0 {
        match check_rewards_pool_balance(pool_balance, PoolCheck::Both, rewards) {
            Err(e) => {
                return Err(e);
            },
            Ok(_) => {},
        }
    }
    let deposit_cycle = t.deposit_cycle;
    update_staker_history(&mut pos.history, false, current_cycle);
    pos.token_info = Some(TokenInfo::unstake(false, deposit_cycle, current_cycle));
    pos.next_claim = None;
    Ok(UnstakeOutcome::ExitCompleted { current_cycle, rewards })
}

/// An exit never completes within two cycles of the deposit: whatever else
/// holds, unstaking a token that is no longer bonded is refused then.
pub proof fn lemma_flash_stake_refused(s: Settings, pos: Position, sender: String, now: u64)
    requires
        pos.token_info is Some,
        pos.token_info->Some_0.bond_status != BondStatus::Bonded,
        s.cycle_at(now) < pos.token_info->Some_0.deposit_cycle + 2,
    ensures
        unstake_refusal(s, pos, sender, now) is Some,
{
}

/// The error a claim is refused with, if any.
pub open spec fn claim_refusal(s: Settings, pos: Position, periods: u64, now: u64, balance: u128) -> Option<
    ContractError,
> {
    let t = pos.token_info->Some_0;
    let k = pos.next_claim->Some_0;
    let outcome = claim_computation(s, pos, periods, now);
    if s.start_timestamp is None {
        Some(ContractError::NotStarted {})
    } else if s.disable {
        Some(ContractError::Disabled {})
    } else if pos.token_info is None {
        Some(ContractError::InvalidTokenId {})
    } else if t.bond_status == BondStatus::Unbonding {
        Some(ContractError::TokenIdIsUnbonding {})
    } else if pos.next_claim is None {
        Some(ContractError::EmptyNextClaim {})
    } else if outcome is Err {
        Some(outcome->Err_0)
    } else if pool_refusal(balance, PoolCheck::Insufficient, outcome->Ok_0.0.amount) is Some {
        pool_refusal(balance, PoolCheck::Insufficient, outcome->Ok_0.0.amount)
    } else if outcome->Ok_0.0.periods == 0 || k.period == 0 {
        Some(ContractError::InvalidClaim {})
    } else if outcome->Ok_0.0.amount == 0 {
        Some(ContractError::NoAmountClaim {})
    } else {
        None
    }
}

/// The calculator run that a claim makes.
pub open spec fn claim_computation(s: Settings, pos: Position, periods: u64, now: u64) -> Result<
    (Claim, NextClaim),
    ContractError,
> {
    rewards_outcome(
        pos.history@,
        pos.next_claim->Some_0,
        pos.token_info->Some_0,
        periods,
        now,
        s.start_timestamp->Some_0,
        s.config,
        s.rewards_per_cycle,
        s.max_compute_period,
    )
}

/// The claim reached the last snapshot and that snapshot is unstaked: the
/// position is fully settled.
pub open spec fn fully_settled(h: Seq<Snapshot>, c: Claim, period_length: int) -> bool {
    &&& (c.start_period + c.periods - 1) * period_length >= h.last().start_cycle
    &&& !h.last().is_staked
}

/// Claims the reward of up to `periods` whole periods at time `now`, while
/// the pool holds `pool_balance`, and returns the claim to pay out. The
/// history entries the cursor passed are dropped; the cursor advances, or
/// is deleted once the position is fully settled.
pub fn claim_rewards(
    settings: &Settings,
    pos: &mut Position,
    periods: u64,
    now: u64,
    pool_balance: u128,
) -> (r: Result<Claim, ContractError>)
    requires
        settings.wf(),
        old(pos).wf(),
    ensures
        final(pos).wf(),
        claim_refusal(*settings, *old(pos), periods, now, pool_balance) is Some ==> {
            &&& r == Err::<Claim, ContractError>(
                claim_refusal(*settings, *old(pos), periods, now, pool_balance)->Some_0,
            )
            &&& *final(pos) == *old(pos)
        },
        claim_refusal(*settings, *old(pos), periods, now, pool_balance) is None ==> {
            let k = old(pos).next_claim->Some_0;
            let (c, k2) = claim_computation(*settings, *old(pos), periods, now)->Ok_0;
            let h2 = compacted(
                old(pos).history@,
                k.staker_snapshot_index as int,
                k2.staker_snapshot_index as int,
            );
            &&& r == Ok::<Claim, ContractError>(c)
            &&& final(pos).history@ == h2
            &&& final(pos).token_info == old(pos).token_info
            &&& final(pos).next_claim == if fully_settled(
                h2,
                c,
                settings.config.period_length_in_cycles as int,
            ) {
                None
            } else {
                Some(
                    NextClaim {
                        period: k2.period,
                        staker_snapshot_index: compacted_index(
                            k.staker_snapshot_index as int,
                            k2.staker_snapshot_index as int,
                        ) as u64,
                    },
                )
            }
        },
{
    let start_timestamp = match settings.start_timestamp {
        None => {
            return Err(ContractError::NotStarted {});
        },
        Some(v) => v,
    };
    if settings.disable {
        return Err(ContractError::Disabled {});
    }
    let t = match &pos.token_info {
        None => {
            return Err(ContractError::InvalidTokenId {});
        },
        Some(t) => t,
    };
    if t.bond_status == BondStatus::Unbonding {
        return Err(ContractError::TokenIdIsUnbonding {});
    }
    let k = match pos.next_claim {
        None => {
            return Err(ContractError::EmptyNextClaim {});
        },
        Some(k) => k,
    };
    // Brings the length bound of a vector into the proof.
    let _ = pos.history.len();
    let (claim, k2) = match compute_rewards(
        &pos.history,
        k,
        t,
        periods,
        now,
        start_timestamp,
        &settings.config,
        settings.rewards_per_cycle,
        settings.max_compute_period,
    ) {
        Err(e) => {
            return Err(e);
        },
        Ok(v) => v,
    };
    proof {
        lemma_outcome_cursor(
            pos.history@,
            k,
            *t,
            periods,
            now,
            start_timestamp,
            settings.config,
            settings.rewards_per_cycle,
            settings.max_compute_period,
        );
    }
    match check_rewards_pool_balance(pool_balance, PoolCheck::Insufficient, claim.amount) {
        Err(e) => {
            return Err(e);
        },
        Ok(_) => {},
    }
    if claim.periods == 0 || k.period == 0 {
        return Err(ContractError::InvalidClaim {});
    }
    if claim.amount == 0 {
        return Err(ContractError::NoAmountClaim {});
    }
    let index = compact_history(&mut pos.history, k.staker_snapshot_index, k2.staker_snapshot_index);
    let last = pos.history[pos.history.len() - 1];
    let claimed_periods: u64 = claim.start_period + claim.periods - 1;
    let period_length = settings.config.period_length_in_cycles;
    proof {
        assert(claimed_periods * period_length <= u128::MAX) by (nonlinear_arith)
            requires
                claimed_periods <= u64::MAX,
                period_length <= u64::MAX,
        ;
    }
    let last_claimed_cycle: u128 = (claimed_periods as u128) * (period_length as u128);
    if last_claimed_cycle >= last.start_cycle as u128 && !last.is_staked {
        pos.next_claim = None;
    } else {
        pos.next_claim = Some(NextClaim::new(k2.period, index));
    }
    Ok(claim)
}

} // verus!
