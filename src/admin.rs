use vstd::prelude::*;

use crate::error::ContractError;
use crate::msg::{ConfigResponse, InstantiateMsg, SetConfigMsg};
use crate::state::Config;
use crate::time::{is_valid_cycle_length, is_valid_period_length, MIN_CYCLE_LENGTH, MIN_PERIOD};

verus! {

/// The cap on the periods one computation may cover, until it is changed.
pub const DEFAULT_MAX_COMPUTE_PERIOD: u64 = 2500;

/// The time an exit waits, in seconds, until it is changed: three weeks.
pub const DEFAULT_UNBONDING_DURATION: u64 = 1814400;

/// The settings of a new contract administered by `owner`, once the time
/// grid is checked.
pub fn instantiate(owner: String, msg: InstantiateMsg) -> (r: Result<Config, ContractError>)
    ensures
        msg.cycle_length_in_seconds < MIN_CYCLE_LENGTH ==> r == Err::<Config, ContractError>(
            ContractError::CycleLengthInvalid {
                min_cycle_length: MIN_CYCLE_LENGTH,
                cycle_length_in_seconds: msg.cycle_length_in_seconds,
            },
        ),
        msg.cycle_length_in_seconds >= MIN_CYCLE_LENGTH && msg.period_length_in_cycles < MIN_PERIOD
            ==> r == Err::<Config, ContractError>(
            ContractError::PeriodLengthInvalid {
                min_period: MIN_PERIOD,
                period_length_in_cycles: msg.period_length_in_cycles,
            },
        ),
        msg.cycle_length_in_seconds >= MIN_CYCLE_LENGTH && msg.period_length_in_cycles >= MIN_PERIOD
            ==> r == Ok::<Config, ContractError>(
            Config {
                owner,
                cycle_length_in_seconds: msg.cycle_length_in_seconds,
                period_length_in_cycles: msg.period_length_in_cycles,
                white_listed_nft_contract: msg.white_listed_nft_contract,
                rewards_token_contract: msg.rewards_token_contract,
            },
        ),
        r is Ok ==> r->Ok_0.wf(),
{
    match is_valid_cycle_length(msg.cycle_length_in_seconds) {
        Err(e) => {
            return Err(e);
        },
        Ok(_) => {},
    }
    match is_valid_period_length(msg.period_length_in_cycles) {
        Err(e) => {
            return Err(e);
        },
        Ok(_) => {},
    }
    Ok(
        Config {
            owner,
            cycle_length_in_seconds: msg.cycle_length_in_seconds,
            period_length_in_cycles: msg.period_length_in_cycles,
            white_listed_nft_contract: msg.white_listed_nft_contract,
            rewards_token_contract: msg.rewards_token_contract,
        },
    )
}

/// The settings after a change: every field the message gives replaces the
/// current one; an invalid cycle or period length refuses the change.
pub fn set_config(config: Config, msg: SetConfigMsg) -> (r: Result<Config, ContractError>)
    ensures
        msg.cycle_length_in_seconds is Some && msg.cycle_length_in_seconds->Some_0 < MIN_CYCLE_LENGTH
            ==> r == Err::<Config, ContractError>(
            ContractError::CycleLengthInvalid {
                min_cycle_length: MIN_CYCLE_LENGTH,
                cycle_length_in_seconds: msg.cycle_length_in_seconds->Some_0,
            },
        ),
        !(msg.cycle_length_in_seconds is Some && msg.cycle_length_in_seconds->Some_0
            < MIN_CYCLE_LENGTH) && msg.period_length_in_cycles is Some
            && msg.period_length_in_cycles->Some_0 < MIN_PERIOD ==> r == Err::<Config, ContractError>(
            ContractError::PeriodLengthInvalid {
                min_period: MIN_PERIOD,
                period_length_in_cycles: msg.period_length_in_cycles->Some_0,
            },
        ),
        !(msg.cycle_length_in_seconds is Some && msg.cycle_length_in_seconds->Some_0
            < MIN_CYCLE_LENGTH) && !(msg.period_length_in_cycles is Some
            && msg.period_length_in_cycles->Some_0 < MIN_PERIOD) ==> r == Ok::<Config, ContractError>(
            Config {
                owner: config.owner,
                cycle_length_in_seconds: match msg.cycle_length_in_seconds {
                    Some(v) => v,
                    None => config.cycle_length_in_seconds,
                },
                period_length_in_cycles: match msg.period_length_in_cycles {
                    Some(v) => v,
                    None => config.period_length_in_cycles,
                },
                white_listed_nft_contract: match msg.white_listed_nft_contract {
                    Some(v) => v,
                    None => config.white_listed_nft_contract,
                },
                rewards_token_contract: match msg.rewards_token_contract {
                    Some(v) => v,
                    None => config.rewards_token_contract,
                },
            },
        ),
{
    let mut cycle_length_in_seconds = config.cycle_length_in_seconds;
    let mut period_length_in_cycles = config.period_length_in_cycles;
    if let Some(v) = msg.cycle_length_in_seconds {
        match is_valid_cycle_length(v) {
            Err(e) => {
                return Err(e);
            },
            Ok(_) => {
                cycle_length_in_seconds = v;
            },
        }
    }
    if let Some(v) = msg.period_length_in_cycles {
        match is_valid_period_length(v) {
            Err(e) => {
                return Err(e);
            },
            Ok(_) => {
                period_length_in_cycles = v;
            },
        }
    }
    let white_listed_nft_contract = match msg.white_listed_nft_contract {
        Some(v) => v,
        None => config.white_listed_nft_contract,
    };
    let rewards_token_contract = match msg.rewards_token_contract {
        Some(v) => v,
        None => config.rewards_token_contract,
    };
    Ok(
        Config {
            owner: config.owner,
            cycle_length_in_seconds,
            period_length_in_cycles,
            white_listed_nft_contract,
            rewards_token_contract,
        },
    )
}

/// Accepts a reward rate per staked cycle above zero.
pub fn add_rewards_for_periods(rewards_per_cycle: u128) -> (r: Result<u128, ContractError>)
    ensures
        rewards_per_cycle == 0 ==> r == Err::<u128, ContractError>(
            ContractError::InvalidRewardsSchedule {},
        ),
        rewards_per_cycle > 0 ==> r == Ok::<u128, ContractError>(rewards_per_cycle),
{
    if rewards_per_cycle == 0 {
        return Err(ContractError::InvalidRewardsSchedule {});
    }
    Ok(rewards_per_cycle)
}

/// The pool total after `amount` reward tokens arrive from `sender`, which
/// must be the reward token contract.
pub fn add_rewards_pool(config: &Config, sender: &String, total_rewards_pool: u128, amount: u128) -> (r:
    Result<u128, ContractError>)
    ensures
        sender@ != config.rewards_token_contract@ ==> r == Err::<u128, ContractError>(
            ContractError::InvalidRewardsTokenContract {
                rewards_token_contract: config.rewards_token_contract,
                requester: *sender,
            },
        ),
        sender@ == config.rewards_token_contract@ && total_rewards_pool + amount > u128::MAX ==> r
            == Err::<u128, ContractError>(ContractError::RewardsOverflow {}),
        sender@ == config.rewards_token_contract@ && total_rewards_pool + amount <= u128::MAX ==> r
            == Ok::<u128, ContractError>((total_rewards_pool + amount) as u128),
{
    if !(*sender == config.rewards_token_contract) {
        return Err(
            ContractError::InvalidRewardsTokenContract {
                rewards_token_contract: config.rewards_token_contract.clone(),
                requester: sender.clone(),
            },
        );
    }
    match total_rewards_pool.checked_add(amount) {
        None => Err(ContractError::RewardsOverflow {}),
        Some(v) => Ok(v),
    }
}

/// Accepts a cap on the periods one computation may cover above zero.
pub fn set_max_compute_period(new_max_compute_period: u64) -> (r: Result<u64, ContractError>)
    ensures
        new_max_compute_period == 0 ==> r == Err::<u64, ContractError>(
            ContractError::InvalidSetMaxPeriod {},
        ),
        new_max_compute_period > 0 ==> r == Ok::<u64, ContractError>(new_max_compute_period),
{
    if new_max_compute_period == 0 {
        return Err(ContractError::InvalidSetMaxPeriod {});
    }
    Ok(new_max_compute_period)
}

/// The start timestamp of a contract started at `now`; it starts once.
pub fn start(start_timestamp: Option<u64>, now: u64) -> (r: Result<u64, ContractError>)
    ensures
        start_timestamp is Some ==> r == Err::<u64, ContractError>(ContractError::AlreadyStarted {}),
        start_timestamp is None ==> r == Ok::<u64, ContractError>(now),
{
    if start_timestamp.is_some() {
        return Err(ContractError::AlreadyStarted {});
    }
    Ok(now)
}

/// The disable flag after enabling a disabled contract.
pub fn enable(disable: bool) -> (r: Result<bool, ContractError>)
    ensures
        !disable ==> r == Err::<bool, ContractError>(ContractError::CannotEnable { disable }),
        disable ==> r == Ok::<bool, ContractError>(false),
{
    if !disable {
        return Err(ContractError::CannotEnable { disable });
    }
    Ok(false)
}

/// Only the contract owner may act.
pub fn check_contract_owner_only(config: &Config, sender: &String) -> (r: Result<bool, ContractError>)
    ensures
        sender@ == config.owner@ ==> r == Ok::<bool, ContractError>(true),
        sender@ != config.owner@ ==> r == Err::<bool, ContractError>(ContractError::Unauthorized {}),
{
    if !(config.owner == *sender) {
        return Err(ContractError::Unauthorized {});
    }
    Ok(true)
}

/// The contract owner, or an address whose grant is still in force, may act.
pub fn check_contract_owner(config: &Config, sender: &String, grant_in_force: bool) -> (r: Result<
    bool,
    ContractError,
>)
    ensures
        sender@ == config.owner@ || grant_in_force ==> r == Ok::<bool, ContractError>(true),
        !(sender@ == config.owner@ || grant_in_force) ==> r == Err::<bool, ContractError>(
            ContractError::Unauthorized {},
        ),
{
    if config.owner == *sender {
        return Ok(true);
    }
    if grant_in_force {
        return Ok(true);
    }
    Err(ContractError::Unauthorized {})
}

/// The start timestamp, once the contract has started.
pub fn check_start_timestamp(start_timestamp: Option<u64>) -> (r: Result<u64, ContractError>)
    ensures
        start_timestamp is None ==> r == Err::<u64, ContractError>(ContractError::NotStarted {}),
        start_timestamp is Some ==> r == Ok::<u64, ContractError>(start_timestamp->Some_0),
{
    match start_timestamp {
        None => Err(ContractError::NotStarted {}),
        Some(v) => Ok(v),
    }
}

/// Refuses to act while the contract is disabled.
pub fn check_disable(disable: bool) -> (r: Result<bool, ContractError>)
    ensures
        disable ==> r == Err::<bool, ContractError>(ContractError::Disabled {}),
        !disable ==> r == Ok::<bool, ContractError>(false),
{
    if disable {
        return Err(ContractError::Disabled {});
    }
    Ok(disable)
}

/// Reports the settings.
pub fn get_config(config: Config) -> (r: ConfigResponse)
    ensures
        r == (ConfigResponse {
            owner: config.owner,
            cycle_length_in_seconds: config.cycle_length_in_seconds,
            period_length_in_cycles: config.period_length_in_cycles,
            white_listed_nft_contract: config.white_listed_nft_contract,
            rewards_token_contract: config.rewards_token_contract,
        }),
{
    ConfigResponse {
        owner: config.owner,
        cycle_length_in_seconds: config.cycle_length_in_seconds,
        period_length_in_cycles: config.period_length_in_cycles,
        white_listed_nft_contract: config.white_listed_nft_contract,
        rewards_token_contract: config.rewards_token_contract,
    }
}

} // verus!
