use nft_staking::history::{compact_history, update_staker_history};
use nft_staking::msg::{EstimateRewardsResponse, TokenInfoMsg, TokenInfosResponse};
use nft_staking::position::{
    check_rewards_pool_balance, claim_rewards, manage_number_nfts, stake_nft, staker_tokenid_key,
    unstake_nft, PoolCheck, Position, Settings, UnstakeOutcome,
};
use nft_staking::query::{estimate_rewards, get_current_cycle_and_period, staked_nfts_by_owner};
use nft_staking::rewards::{accrue, compute_rewards};
use nft_staking::state::{BondStatus, Claim, Config, NextClaim, Snapshot, TokenInfo};
use nft_staking::text::decimal_text;
use nft_staking::time::{
    get_current_period, get_cycle, get_period, is_valid_cycle_length, is_valid_period_length,
};
use nft_staking::ContractError;

const MINTER: &str = "xpla1j55tymfdys9n7k0dq6xmyd4hgfelp9jghzympt";
const STAKER: &str = "xpla1ma4peq833n2k3t7u2f60w420ltx8nvz0g0vwlu";
const NFT_CONTRACT: &str = "cosmos2contract_cw721";
const REWARDS_CONTRACT: &str = "cosmos2contract_cw20";
const TOKEN_ID: &str = "token_id_test_0";
const ADD_REWARDS_POOL: u128 = 2000000000;
const CYCLE_LENGTH_IN_SECONDS: u64 = 60;
const PERIOD_LENGTH_IN_CYCLES: u64 = 3;
const REWARDS_PER_CYCLE: u128 = 17;
const DEFAULT_MAX_COMPUTE_PERIOD: u64 = 2500;
const UNBONDING_DURATION: u64 = 1814400;
const START: u64 = 1571797419;

fn config() -> Config {
    Config {
        owner: MINTER.to_string(),
        cycle_length_in_seconds: CYCLE_LENGTH_IN_SECONDS,
        period_length_in_cycles: PERIOD_LENGTH_IN_CYCLES,
        white_listed_nft_contract: NFT_CONTRACT.to_string(),
        rewards_token_contract: REWARDS_CONTRACT.to_string(),
    }
}

fn settings() -> Settings {
    Settings {
        config: config(),
        start_timestamp: Some(START),
        disable: false,
        rewards_per_cycle: Some(REWARDS_PER_CYCLE),
        total_rewards_pool: Some(ADD_REWARDS_POOL),
        max_compute_period: DEFAULT_MAX_COMPUTE_PERIOD,
        unbonding_duration: UNBONDING_DURATION,
    }
}

fn do_stake(s: &Settings) -> Position {
    let mut pos = Position::new();
    let cycle = stake_nft(s, &mut pos, &NFT_CONTRACT.to_string(), STAKER.to_string(), START, ADD_REWARDS_POOL)
        .unwrap();
    assert_eq!(cycle, 1);
    pos
}

#[test]
fn test_stake() {
    let s = settings();
    let pos = do_stake(&s);
    assert_eq!(pos.history, vec![Snapshot::new(true, 1)]);
    assert_eq!(pos.next_claim, Some(NextClaim::new(1, 0)));
    let t = pos.token_info.unwrap();
    assert_eq!(t.owner, STAKER);
    assert!(t.is_staked);
    assert_eq!(t.bond_status, BondStatus::Bonded);
    assert_eq!(t.deposit_cycle, 1);
}

#[test]
fn test_claim() {
    let s = settings();
    let mut pos = do_stake(&s);
    let claim = claim_rewards(&s, &mut pos, 5, START + 5000, ADD_REWARDS_POOL).unwrap();
    assert_eq!(claim, Claim { start_period: 1, periods: 5, amount: 255 });
    assert_eq!(ADD_REWARDS_POOL - claim.amount, 1999999745);
    assert_eq!(pos.next_claim.unwrap().period, 6);
}

#[test]
fn test_claim_exceeding_max_compute_period() {
    let s = settings();
    let mut pos = do_stake(&s);
    let res = claim_rewards(&s, &mut pos, 3000, START + 5000, ADD_REWARDS_POOL);
    assert_eq!(
        res,
        Err(ContractError::InvalidMaxPeriod { periods: 3000, max_compute_period: DEFAULT_MAX_COMPUTE_PERIOD })
    );
    assert_eq!(pos.next_claim, Some(NextClaim::new(1, 0)));
}

#[test]
fn test_claim_while_unbonding_duration() {
    let s = settings();
    let mut pos = do_stake(&s);
    let staker = STAKER.to_string();
    let out = unstake_nft(&s, &mut pos, &staker, START + 2000, ADD_REWARDS_POOL).unwrap();
    assert_eq!(out, UnstakeOutcome::ExitRequested {});
    assert_eq!(pos.token_info.as_ref().unwrap().bond_status, BondStatus::Unbonding);
    let res = claim_rewards(&s, &mut pos, 5, START + 2000, ADD_REWARDS_POOL);
    assert_eq!(res, Err(ContractError::TokenIdIsUnbonding {}));
}

#[test]
fn test_claim_empty_rewards_pool() {
    let s = settings();
    let mut pos = do_stake(&s);
    let res = claim_rewards(&s, &mut pos, 5, START + 2000, 0);
    assert_eq!(
        res,
        Err(ContractError::InsufficientRewardsPool { rewards_pool_balance: 0, claim_amount: 255 })
    );
}

#[test]
fn test_disable() {
    let mut s = settings();
    let mut pos = do_stake(&s);
    s.disable = true;
    let res = claim_rewards(&s, &mut pos, 10, START, ADD_REWARDS_POOL);
    assert_eq!(res, Err(ContractError::Disabled {}));
    let res = unstake_nft(&s, &mut pos, &STAKER.to_string(), START, ADD_REWARDS_POOL);
    assert_eq!(res, Err(ContractError::Disabled {}));
}

#[test]
fn test_unstake() {
    let s = settings();
    let mut pos = do_stake(&s);
    let staker = STAKER.to_string();
    let timestamp = START + 2000;
    unstake_nft(&s, &mut pos, &staker, timestamp, ADD_REWARDS_POOL).unwrap();
    let requested_unbonding_period = get_current_period(timestamp, START, &config()).unwrap();
    assert_eq!(requested_unbonding_period, 12);
    let timestamp = timestamp + UNBONDING_DURATION + 1;
    let out = unstake_nft(&s, &mut pos, &staker, timestamp, ADD_REWARDS_POOL).unwrap();
    let current_cycle = get_cycle(timestamp, START, &config()).unwrap();
    assert_eq!(out, UnstakeOutcome::ExitCompleted { current_cycle, rewards: 561 });
    assert_eq!(ADD_REWARDS_POOL - 561, 1999999439);
    assert_eq!(pos.next_claim, None);
    assert_eq!(pos.history, vec![Snapshot::new(true, 1), Snapshot::new(false, current_cycle)]);
    let t = pos.token_info.unwrap();
    assert_eq!(t.owner, "");
    assert!(!t.is_staked);
    assert_eq!(t.withdraw_cycle, current_cycle);
    assert_eq!(t.bond_status, BondStatus::Unspecified);
}

#[test]
fn test_unstake_frozen_accrual_does_not_grow() {
    let s = settings();
    let mut pos = do_stake(&s);
    let staker = STAKER.to_string();
    unstake_nft(&s, &mut pos, &staker, START + 2000, ADD_REWARDS_POOL).unwrap();
    let out = unstake_nft(&s, &mut pos, &staker, START + 2000 + UNBONDING_DURATION * 3, ADD_REWARDS_POOL)
        .unwrap();
    match out {
        UnstakeOutcome::ExitCompleted { rewards, .. } => assert_eq!(rewards, 561),
        _ => panic!("exit not completed"),
    }
}

#[test]
fn test_unstake_not_reach_unbonding_time() {
    let s = settings();
    let mut pos = do_stake(&s);
    let staker = STAKER.to_string();
    unstake_nft(&s, &mut pos, &staker, START, ADD_REWARDS_POOL).unwrap();
    let before_unbonding_duration = UNBONDING_DURATION - 10;
    assert_eq!(1814390, before_unbonding_duration);
    let res = unstake_nft(&s, &mut pos, &staker, START + before_unbonding_duration, ADD_REWARDS_POOL);
    assert_eq!(res, Err(ContractError::NotReachUnbondingTime {}));
}

#[test]
fn test_unstake_staker_has_alotof_rewards() {
    let s = settings();
    let mut pos = do_stake(&s);
    let staker = STAKER.to_string();
    let timestamp = START + 10000000;
    let current_period = get_current_period(timestamp, START, &config()).unwrap();
    assert_eq!(55556, current_period);
    assert!(current_period > DEFAULT_MAX_COMPUTE_PERIOD);
    unstake_nft(&s, &mut pos, &staker, timestamp, ADD_REWARDS_POOL).unwrap();
    let timestamp = timestamp + UNBONDING_DURATION + 1;
    let out = unstake_nft(&s, &mut pos, &staker, timestamp, ADD_REWARDS_POOL).unwrap();
    match out {
        UnstakeOutcome::ExitCompleted { rewards, .. } => {
            assert_eq!(2833305, rewards);
            assert_eq!(1997166695, ADD_REWARDS_POOL - rewards);
        },
        _ => panic!("exit not completed"),
    }
}

#[test]
fn flash_stake_is_refused() {
    let mut s = settings();
    s.unbonding_duration = 0;
    let mut pos = do_stake(&s);
    let staker = STAKER.to_string();
    unstake_nft(&s, &mut pos, &staker, START + 10, ADD_REWARDS_POOL).unwrap();
    let res = unstake_nft(&s, &mut pos, &staker, START + 61, ADD_REWARDS_POOL);
    assert_eq!(res, Err(ContractError::TokenSteelFrozen {}));
    let res = unstake_nft(&s, &mut pos, &staker, START + 121, ADD_REWARDS_POOL);
    assert!(matches!(res, Ok(UnstakeOutcome::ExitCompleted { current_cycle: 3, rewards: 0 })));
}

#[test]
fn unstake_by_other_owner_is_refused() {
    let s = settings();
    let mut pos = do_stake(&s);
    let res = unstake_nft(&s, &mut pos, &MINTER.to_string(), START + 10, ADD_REWARDS_POOL);
    assert_eq!(
        res,
        Err(ContractError::InvalidNftOwner { requester: MINTER.to_string(), nft_owner: STAKER.to_string() })
    );
    let mut empty = Position::new();
    let res = unstake_nft(&s, &mut empty, &MINTER.to_string(), START, ADD_REWARDS_POOL);
    assert_eq!(res, Err(ContractError::InvalidTokenId {}));
}

#[test]
fn stake_refusals() {
    let s = settings();
    let nft = NFT_CONTRACT.to_string();
    let mut pos = Position::new();
    assert_eq!(
        stake_nft(&s, &mut pos, &nft, STAKER.to_string(), START, 0),
        Err(ContractError::EmptyRewardsPool {})
    );
    let mut t = settings();
    t.rewards_per_cycle = None;
    assert_eq!(
        stake_nft(&t, &mut pos, &nft, STAKER.to_string(), START, 5),
        Err(ContractError::NoneRewardsSchedule {})
    );
    assert_eq!(
        stake_nft(&s, &mut pos, &MINTER.to_string(), STAKER.to_string(), START, 5),
        Err(ContractError::InvalidWhitelistedContract {
            white_listed_contract: NFT_CONTRACT.to_string(),
            requester: MINTER.to_string()
        })
    );
    let mut t = settings();
    t.start_timestamp = None;
    assert_eq!(
        stake_nft(&t, &mut pos, &nft, STAKER.to_string(), START, 5),
        Err(ContractError::NotStarted {})
    );
    assert_eq!(
        stake_nft(&s, &mut pos, &nft, STAKER.to_string(), START - 1, 5),
        Err(ContractError::TimestampPreceesContractStart {})
    );
    assert_eq!(pos.history.len(), 0);
    stake_nft(&s, &mut pos, &nft, STAKER.to_string(), START, 5).unwrap();
    assert_eq!(
        stake_nft(&s, &mut pos, &nft, STAKER.to_string(), START + 100, 5),
        Err(ContractError::AlreadyStaked {})
    );
}

#[test]
fn restake_after_exit_waits_one_cycle() {
    let mut s = settings();
    s.unbonding_duration = 0;
    let nft = NFT_CONTRACT.to_string();
    let staker = STAKER.to_string();
    let mut pos = do_stake(&s);
    unstake_nft(&s, &mut pos, &staker, START + 10, ADD_REWARDS_POOL).unwrap();
    unstake_nft(&s, &mut pos, &staker, START + 600, ADD_REWARDS_POOL).unwrap();
    assert_eq!(
        stake_nft(&s, &mut pos, &nft, staker.clone(), START + 601, 5),
        Err(ContractError::UnstakedTokenCooldown {})
    );
    let cycle = stake_nft(&s, &mut pos, &nft, staker.clone(), START + 660, 5).unwrap();
    assert_eq!(cycle, 12);
    assert_eq!(pos.history.len(), 3);
    assert_eq!(pos.next_claim, Some(NextClaim::new(4, 2)));
}

#[test]
fn claims_add_up_and_compact_history() {
    let s = settings();
    let mut one = do_stake(&s);
    let mut two = do_stake(&s);
    let whole = claim_rewards(&s, &mut one, 5, START + 5000, ADD_REWARDS_POOL).unwrap();
    let first = claim_rewards(&s, &mut two, 2, START + 5000, ADD_REWARDS_POOL).unwrap();
    let second = claim_rewards(&s, &mut two, 3, START + 5000, ADD_REWARDS_POOL).unwrap();
    assert_eq!(first.amount + second.amount, whole.amount);
    assert_eq!(first.amount, 102);
    assert_eq!(second.start_period, 3);
    assert_eq!(one.next_claim, two.next_claim);
}

#[test]
fn claim_of_current_period_is_invalid() {
    let s = settings();
    let mut pos = do_stake(&s);
    let res = claim_rewards(&s, &mut pos, 5, START + 100, ADD_REWARDS_POOL);
    assert_eq!(res, Err(ContractError::InvalidClaim {}));
    let mut empty = Position::new();
    empty.token_info = Some(TokenInfo::default());
    assert_eq!(
        claim_rewards(&s, &mut empty, 5, START + 100, ADD_REWARDS_POOL),
        Err(ContractError::EmptyNextClaim {})
    );
}

#[test]
fn estimate_is_repeatable_and_read_only() {
    let s = settings();
    let pos = do_stake(&s);
    let key = staker_tokenid_key(STAKER.to_string(), TOKEN_ID.to_string());
    let a = estimate_rewards(&s, &pos, key.clone(), 5, START + 5000);
    let b = estimate_rewards(&s, &pos, key.clone(), 5, START + 5000);
    assert_eq!(a.claim, Claim { start_period: 1, periods: 5, amount: 255 });
    assert_eq!(a.claim, b.claim);
    assert_eq!(a.res_msg, "success");
    assert_eq!(pos.next_claim, Some(NextClaim::new(1, 0)));
    let c: EstimateRewardsResponse = estimate_rewards(&s, &pos, key, 3000, START + 5000);
    assert_eq!(
        c.res_msg,
        "request claimable periods value for rewards is invalid, request periods: 3000 is bigger than max period: 2500"
    );
    assert_eq!(c.claim, Claim::default());
}

#[test]
fn time_mapping() {
    let c = config();
    assert_eq!(get_cycle(START, START, &c), Ok(1));
    assert_eq!(get_cycle(START + 59, START, &c), Ok(1));
    assert_eq!(get_cycle(START + 60, START, &c), Ok(2));
    assert_eq!(get_cycle(START - 1, START, &c), Err(ContractError::TimestampPreceesContractStart {}));
    assert_eq!(get_period(0, &c), Err(ContractError::CycleNotZero {}));
    assert_eq!(get_period(3, &c), Ok(1));
    assert_eq!(get_period(4, &c), Ok(2));
    let mut last = 0;
    for t in (START..START + 2000).step_by(7) {
        let p = get_current_period(t, START, &c).unwrap();
        assert!(p >= last);
        last = p;
    }
    assert_eq!(is_valid_cycle_length(9), Err(ContractError::CycleLengthInvalid { min_cycle_length: 10, cycle_length_in_seconds: 9 }));
    assert_eq!(is_valid_cycle_length(10), Ok(true));
    assert_eq!(is_valid_period_length(1), Err(ContractError::PeriodLengthInvalid { min_period: 2, period_length_in_cycles: 1 }));
    assert_eq!(is_valid_period_length(2), Ok(true));
    let r = get_current_cycle_and_period(Some(START), &c, START + 5000);
    assert_eq!((r.current_cycle, r.current_period), (84, 28));
    let r = get_current_cycle_and_period(None, &c, START);
    assert_eq!(r.res_msg, "not started, run start()");
}

#[test]
fn history_records_one_entry_per_cycle() {
    let mut h: Vec<Snapshot> = Vec::new();
    assert_eq!(update_staker_history(&mut h, true, 3), 0);
    assert_eq!(update_staker_history(&mut h, false, 7), 1);
    assert_eq!(update_staker_history(&mut h, true, 7), 1);
    assert_eq!(h, vec![Snapshot::new(true, 3), Snapshot::new(true, 7)]);
    let mut h = vec![
        Snapshot::new(true, 1),
        Snapshot::new(false, 4),
        Snapshot::new(true, 6),
        Snapshot::new(false, 9),
    ];
    assert_eq!(compact_history(&mut h, 0, 2), 1);
    assert_eq!(h, vec![Snapshot::new(true, 1), Snapshot::new(true, 6), Snapshot::new(false, 9)]);
    assert_eq!(compact_history(&mut h, 1, 1), 1);
    assert_eq!(h.len(), 3);
}

#[test]
fn accrual_splits_periods_at_snapshots() {
    let h = vec![Snapshot::new(true, 1), Snapshot::new(false, 5), Snapshot::new(true, 8)];
    // cycles 1..4 staked, 5..7 not, 8..9 staked: 6 staked cycles in periods 1 to 3.
    let (claim, next) = accrue(&h, NextClaim::new(1, 0), 3, 10, 3, Some(10)).unwrap();
    assert_eq!(claim, Claim { start_period: 1, periods: 3, amount: 60 });
    assert_eq!(next, NextClaim::new(4, 2));
    let (claim, next) = accrue(&h, NextClaim::new(1, 0), 2, 10, 3, Some(10)).unwrap();
    assert_eq!(claim.amount, 40);
    assert_eq!(next, NextClaim::new(3, 1));
    assert_eq!(accrue(&h, NextClaim::new(1, 0), 2, 10, 3, None), Err(ContractError::InvalidRewardsSchedule {}));
    assert_eq!(
        accrue(&h, NextClaim::new(1, 0), 3, 10, 3, Some(u128::MAX)),
        Err(ContractError::RewardsOverflow {})
    );
    assert_eq!(accrue(&h, NextClaim::new(4, 2), 3, 4, 3, Some(10)).unwrap().0, Claim { start_period: 4, periods: 0, amount: 0 });
}

#[test]
fn compute_freezes_at_exit_request() {
    let h = vec![Snapshot::new(true, 1)];
    let mut t = TokenInfo::stake(STAKER.to_string(), true, 1);
    t.bond_status = BondStatus::Unbonding;
    t.req_unbond_time = START + 2000;
    let (claim, _) =
        compute_rewards(&h, NextClaim::new(1, 0), &t, 100, START + 90000, START, &config(), Some(17), 2500).unwrap();
    assert_eq!(claim, Claim { start_period: 1, periods: 11, amount: 561 });
}

#[test]
fn pool_guard_and_counters() {
    assert_eq!(check_rewards_pool_balance(0, PoolCheck::Empty, 0), Err(ContractError::EmptyRewardsPool {}));
    assert_eq!(check_rewards_pool_balance(5, PoolCheck::Empty, 10), Ok(()));
    assert_eq!(
        check_rewards_pool_balance(5, PoolCheck::Insufficient, 10),
        Err(ContractError::InsufficientRewardsPool { rewards_pool_balance: 5, claim_amount: 10 })
    );
    assert_eq!(check_rewards_pool_balance(0, PoolCheck::Both, 10), Err(ContractError::EmptyRewardsPool {}));
    assert_eq!(check_rewards_pool_balance(10, PoolCheck::Both, 10), Ok(()));
    assert_eq!(manage_number_nfts(4, true), 5);
    assert_eq!(manage_number_nfts(4, false), 3);
    assert_eq!(staker_tokenid_key("a".to_string(), "b".to_string()), "a@b");
}

#[test]
fn messages_spell_out_numbers() {
    assert_eq!(decimal_text(0), "0");
    assert_eq!(decimal_text(1234567890), "1234567890");
    assert_eq!(decimal_text(u128::MAX), u128::MAX.to_string());
    assert_eq!(
        ContractError::InsufficientRewardsPool { rewards_pool_balance: 7, claim_amount: 255 }.to_message(),
        "rewards pool is insufficient to claim, rewards pool balance is 7 and claim amount is 255"
    );
    assert_eq!(ContractError::CannotEnable { disable: false }.to_message(), "cannot enable, disable state is false");
}

#[test]
fn token_report_shows_reached_unbonding() {
    let mut t = TokenInfo::stake(STAKER.to_string(), true, 1);
    let r = TokenInfosResponse::new(TOKEN_ID.to_string(), t.clone(), START, UNBONDING_DURATION);
    assert_eq!(r.is_reached_status_unbonded, None);
    t.bond_status = BondStatus::Unbonding;
    t.req_unbond_time = START;
    let r = TokenInfosResponse::new(TOKEN_ID.to_string(), t.clone(), START + UNBONDING_DURATION, UNBONDING_DURATION);
    assert_eq!(r.is_reached_status_unbonded, Some(false));
    assert_eq!(r.token_info.bond_status, BondStatus::Unbonding);
    let r = TokenInfosResponse::new(TOKEN_ID.to_string(), t, START + UNBONDING_DURATION + 1, UNBONDING_DURATION);
    assert_eq!(r.is_reached_status_unbonded, Some(true));
    assert_eq!(r.token_info.bond_status, BondStatus::Unbonded);
}

#[test]
fn owner_filter_keeps_order() {
    let mk = |id: &str, owner: &str| TokenInfoMsg {
        token_id: id.to_string(),
        token_info: TokenInfo::stake(owner.to_string(), true, 1),
    };
    let r = staked_nfts_by_owner(vec![mk("1", "a"), mk("2", "b"), mk("3", "a")], &"a".to_string());
    let ids: Vec<String> = r.staked_nfts.iter().map(|m| m.token_id.clone()).collect();
    assert_eq!(ids, vec!["1".to_string(), "3".to_string()]);
}
