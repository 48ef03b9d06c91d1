use nft_staking::history::{history_is_sorted, update_histories};
use nft_staking::msg::{
    DisableResponse, EstimateRewardsResponse, GetCurrentCycleAndPeriodResponse, NextClaimResponse,
    NumberOfStakedNftsResponse, RewardsScheduleResponse, StakerHistoryResponse, StartTimeResponse,
    TokenInfoMsg, TokenInfosResponse, TotalRewardsPoolResponse, WithdrawRewardsPoolResponse,
};
use nft_staking::position::check_unbonding_end;
use nft_staking::query::{
    disable, get_rewards_schedule, next_claims, number_of_staked_nfts, staker_history, start_time,
    token_infos, total_rewards_pool,
};
use nft_staking::state::{BondStatus, Claim, NextClaim, Snapshot, TokenInfo};
use nft_staking::ContractError;

#[test]
fn responses_carry_success_or_the_error() {
    let r = GetCurrentCycleAndPeriodResponse::new(84, 28);
    assert_eq!((r.current_cycle, r.current_period, r.res_msg.as_str()), (84, 28, "success"));
    let r = GetCurrentCycleAndPeriodResponse::with_err(ContractError::CycleNotZero {});
    assert_eq!(r.res_msg, "cycle cannot be zero");
    assert_eq!(RewardsScheduleResponse::none_rewards_schedule().res_msg, "rewards schedule is null");
    assert_eq!(RewardsScheduleResponse::new(17).rewards_per_cycle, 17);
    let r = StartTimeResponse::not_started(5);
    assert!(!r.start);
    assert_eq!(r.now_time, 5);
    assert_eq!(r.res_msg, "not started, run start()");
    assert!(DisableResponse::not_started().disable);
    assert_eq!(TotalRewardsPoolResponse::empty_rewards_pool().res_msg, "rewards pool is empty");
    let r = WithdrawRewardsPoolResponse::with_err(ContractError::InvalidSetMaxPeriod {});
    assert_eq!(r.res_msg, "invalid set max_compute_period, need bigger than zero");
    assert_eq!(NextClaimResponse::empty_next_claim().res_msg, "next claim is empty");
    assert_eq!(StakerHistoryResponse::have_not_history("k".to_string()).res_msg, "have not history");
    assert_eq!(TokenInfosResponse::invalid_token_id("t".to_string()).res_msg, "invalid token id");
    assert_eq!(
        TokenInfosResponse::unstaked_token_id("t".to_string(), TokenInfo::default()).res_msg,
        "unstaked token id"
    );
    assert_eq!(EstimateRewardsResponse::invalid_claim("k".to_string()).res_msg, "invalid claim of requester");
    assert_eq!(EstimateRewardsResponse::disabled("k".to_string()).res_msg, "disabled");
    assert_eq!(EstimateRewardsResponse::not_started("k".to_string()).claim, Claim::default());
    assert_eq!(NumberOfStakedNftsResponse::not_started().number_of_staked_nfts, 0);
    assert_eq!(TokenInfoMsg::default().token_id, "");
}

#[test]
fn queries_report_stored_values() {
    assert_eq!(get_rewards_schedule(Some(17)).rewards_per_cycle, 17);
    assert_eq!(get_rewards_schedule(None).rewards_per_cycle, 0);
    assert_eq!(start_time(Some(3), 9).start_time, 3);
    assert!(!start_time(None, 9).start);
    assert!(!disable(Some(3), false).disable);
    assert!(disable(None, false).disable);
    assert_eq!(total_rewards_pool(Some(2000000000)).total_rewards_pool, 2000000000);
    assert_eq!(next_claims(Some(NextClaim::new(6, 0))).next_claim, NextClaim::new(6, 0));
    assert_eq!(next_claims(None).next_claim, NextClaim::default());
    let r = staker_history("k".to_string(), Some(vec![Snapshot::new(true, 1)]));
    assert_eq!(r.staker_history, vec![Snapshot::new(true, 1)]);
    assert_eq!(staker_history("k".to_string(), None).res_msg, "have not history");
    assert_eq!(number_of_staked_nfts(Some(1), 4).number_of_staked_nfts, 4);
    assert_eq!(number_of_staked_nfts(None, 4).number_of_staked_nfts, 0);
    let mut t = TokenInfo::stake("s".to_string(), true, 1);
    assert_eq!(token_infos("t".to_string(), Some(t.clone()), 0, 10).res_msg, "success");
    t.is_staked = false;
    assert_eq!(token_infos("t".to_string(), Some(t), 0, 10).res_msg, "unstaked token id");
    assert_eq!(token_infos("t".to_string(), None, 0, 10).res_msg, "invalid token id");
}

#[test]
fn staker_checks() {
    let t = TokenInfo::stake("s".to_string(), true, 1);
    assert_eq!(TokenInfo::check_staker(Some(t.clone()), &"s".to_string()), Ok(t.clone()));
    assert_eq!(
        TokenInfo::check_staker(Some(t.clone()), &"x".to_string()),
        Err(ContractError::InvalidNftOwner { requester: "x".to_string(), nft_owner: "s".to_string() })
    );
    assert_eq!(TokenInfo::check_staker(None, &"s".to_string()), Err(ContractError::InvalidTokenId {}));
    let u = TokenInfo::unstake_unbonding("s".to_string(), true, 1, 0, 100);
    assert_eq!(u.bond_status, BondStatus::Unbonding);
    assert_eq!(check_unbonding_end(&u, 110, 10), Err(ContractError::NotReachUnbondingTime {}));
    assert_eq!(check_unbonding_end(&u, 111, 10), Ok(true));
    assert_eq!(check_unbonding_end(&t, 1000, 10), Err(ContractError::NotReachUnbondingTime {}));
    assert_eq!(TokenInfo::unstake_unbonded("s".to_string(), true, 1, 0, 100).bond_status, BondStatus::Unbonded);
    assert_eq!(TokenInfo::unstake(false, 1, 5).owner, "");
}

#[test]
fn histories_report_the_change() {
    let mut h = vec![Snapshot::new(true, 1)];
    let r = update_histories(&mut h, "s@t".to_string(), false, 4);
    assert_eq!(r.staker, "s@t");
    assert_eq!(r.current_cycle, 4);
    assert!(!r.staker_histories_stake);
    assert_eq!(h, vec![Snapshot::new(true, 1), Snapshot::new(false, 4)]);
    assert!(history_is_sorted(&h));
    assert!(!history_is_sorted(&vec![Snapshot::new(true, 4), Snapshot::new(false, 4)]));
    assert!(history_is_sorted(&vec![]));
    assert_eq!(BondStatus::Bonded.as_str(), "BOND_STATUS_BONDED");
}
