use nft_staking::admin::{
    add_rewards_for_periods, add_rewards_pool, check_contract_owner, check_contract_owner_only,
    check_disable, check_start_timestamp, enable, get_config, instantiate, set_config,
    set_max_compute_period, start, DEFAULT_MAX_COMPUTE_PERIOD, DEFAULT_UNBONDING_DURATION,
};
use nft_staking::msg::{InstantiateMsg, SetConfigMsg};
use nft_staking::state::Config;
use nft_staking::ContractError;

fn config() -> Config {
    Config {
        owner: "owner".to_string(),
        cycle_length_in_seconds: 60,
        period_length_in_cycles: 3,
        white_listed_nft_contract: "nft".to_string(),
        rewards_token_contract: "cw20".to_string(),
    }
}

#[test]
fn instantiate_checks_the_time_grid() {
    let msg = |c: u64, p: u64| InstantiateMsg {
        cycle_length_in_seconds: c,
        period_length_in_cycles: p,
        white_listed_nft_contract: "nft".to_string(),
        rewards_token_contract: "cw20".to_string(),
    };
    let c = instantiate("owner".to_string(), msg(60, 3)).unwrap();
    assert_eq!(c.owner, "owner");
    assert_eq!(c.cycle_length_in_seconds, 60);
    assert_eq!(c.period_length_in_cycles, 3);
    assert_eq!(
        instantiate("owner".to_string(), msg(5, 3)).unwrap_err(),
        ContractError::CycleLengthInvalid { min_cycle_length: 10, cycle_length_in_seconds: 5 }
    );
    assert_eq!(
        instantiate("owner".to_string(), msg(60, 1)).unwrap_err(),
        ContractError::PeriodLengthInvalid { min_period: 2, period_length_in_cycles: 1 }
    );
    assert_eq!(DEFAULT_MAX_COMPUTE_PERIOD, 2500);
    assert_eq!(DEFAULT_UNBONDING_DURATION, 1814400);
}

#[test]
fn test_set_config() {
    let msg = SetConfigMsg {
        cycle_length_in_seconds: Some(100),
        period_length_in_cycles: None,
        white_listed_nft_contract: Some("other_cw721_contract".to_string()),
        rewards_token_contract: None,
    };
    let c = set_config(config(), msg).unwrap();
    assert_eq!(c.cycle_length_in_seconds, 100);
    assert_eq!(c.period_length_in_cycles, 3);
    assert_eq!(c.white_listed_nft_contract, "other_cw721_contract");
    assert_eq!(c.rewards_token_contract, "cw20");
    let bad = SetConfigMsg {
        cycle_length_in_seconds: None,
        period_length_in_cycles: Some(1),
        white_listed_nft_contract: None,
        rewards_token_contract: None,
    };
    assert_eq!(
        set_config(config(), bad).unwrap_err(),
        ContractError::PeriodLengthInvalid { min_period: 2, period_length_in_cycles: 1 }
    );
}

#[test]
fn test_add_rewards_for_period() {
    assert_eq!(add_rewards_for_periods(17), Ok(17));
    assert_eq!(add_rewards_for_periods(0), Err(ContractError::InvalidRewardsSchedule {}));
}

#[test]
fn rewards_pool_grows_from_the_token_contract_only() {
    let c = config();
    assert_eq!(add_rewards_pool(&c, &"cw20".to_string(), 5, 2000000000), Ok(2000000005));
    assert_eq!(
        add_rewards_pool(&c, &"other".to_string(), 5, 7),
        Err(ContractError::InvalidRewardsTokenContract {
            rewards_token_contract: "cw20".to_string(),
            requester: "other".to_string()
        })
    );
    assert_eq!(add_rewards_pool(&c, &"cw20".to_string(), u128::MAX, 1), Err(ContractError::RewardsOverflow {}));
}

#[test]
fn lifecycle_switches() {
    assert_eq!(set_max_compute_period(0), Err(ContractError::InvalidSetMaxPeriod {}));
    assert_eq!(set_max_compute_period(10), Ok(10));
    assert_eq!(start(None, 42), Ok(42));
    assert_eq!(start(Some(1), 42), Err(ContractError::AlreadyStarted {}));
    assert_eq!(enable(true), Ok(false));
    assert_eq!(enable(false), Err(ContractError::CannotEnable { disable: false }));
    assert_eq!(check_start_timestamp(None), Err(ContractError::NotStarted {}));
    assert_eq!(check_start_timestamp(Some(9)), Ok(9));
    assert_eq!(check_disable(true), Err(ContractError::Disabled {}));
    assert_eq!(check_disable(false), Ok(false));
}

#[test]
fn test_grant_and_revoke() {
    let c = config();
    assert_eq!(check_contract_owner_only(&c, &"owner".to_string()), Ok(true));
    assert_eq!(check_contract_owner_only(&c, &"granter".to_string()), Err(ContractError::Unauthorized {}));
    assert_eq!(check_contract_owner(&c, &"granter".to_string(), true), Ok(true));
    assert_eq!(check_contract_owner(&c, &"granter".to_string(), false), Err(ContractError::Unauthorized {}));
    assert_eq!(
        ContractError::Unauthorized {}.to_message(),
        "Unauthorized address"
    );
    let r = get_config(config());
    assert_eq!(r.owner, "owner");
    assert_eq!(r.cycle_length_in_seconds, 60);
}
