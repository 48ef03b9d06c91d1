use vstd::prelude::*;

use crate::error::ContractError;

verus! {

/// Contract-wide settings: who administers the contract, the time grid and
/// the two contracts it trades with.
#[derive(Clone, Debug)]
pub struct Config {
    pub owner: String,
    pub cycle_length_in_seconds: u64,
    pub period_length_in_cycles: u64,
    pub white_listed_nft_contract: String,
    pub rewards_token_contract: String,
}

impl Config {
    /// The time grid is usable: cycles last at least ten seconds and periods
    /// hold at least two cycles.
    pub open spec fn wf(&self) -> bool {
        &&& self.cycle_length_in_seconds >= 10
        &&& self.period_length_in_cycles >= 2
    }
}

/// From `start_cycle` on, until the next snapshot, the position is staked
/// exactly when `is_staked` holds.
#[derive(Clone, Copy, Debug, PartialEq, Eq, Structural)]
pub struct Snapshot {
    pub is_staked: bool,
    pub start_cycle: u64,
}

impl Snapshot {
    pub fn default() -> (r: Snapshot)
        ensures
            r == (Snapshot { is_staked: false, start_cycle: 0 }),
    {
        Snapshot { is_staked: false, start_cycle: 0 }
    }

    pub fn new(is_staked: bool, start_cycle: u64) -> (r: Snapshot)
        ensures
            r == (Snapshot { is_staked, start_cycle }),
    {
        Snapshot { is_staked, start_cycle }
    }
}

/// Where a token stands in its exit lifecycle.
#[derive(Clone, Copy, Debug, PartialEq, Eq, Structural)]
pub enum BondStatus {
    Unspecified,
    Bonded,
    Unbonding,
    Unbonded,
}

impl BondStatus {
    /// The name under which the status is reported.
    pub fn as_str(&self) -> (r: &'static str)
        ensures
            r@ == bond_status_name(*self),
    {
        match self {
            BondStatus::Unspecified => "BOND_STATUS_UNSPECIFIED",
            BondStatus::Bonded => "BOND_STATUS_BONDED",
            BondStatus::Unbonding => "BOND_STATUS_UNBONDING",
            BondStatus::Unbonded => "BOND_STATUS_UNBONDED",
        }
    }
}

pub open spec fn bond_status_name(s: BondStatus) -> Seq<char> {
    match s {
        BondStatus::Unspecified => "BOND_STATUS_UNSPECIFIED"@,
        BondStatus::Bonded => "BOND_STATUS_BONDED"@,
        BondStatus::Unbonding => "BOND_STATUS_UNBONDING"@,
        BondStatus::Unbonded => "BOND_STATUS_UNBONDED"@,
    }
}

/// The ledger record of one staked token.
#[derive(Clone, Debug, PartialEq)]
pub struct TokenInfo {
    pub owner: String,
    pub is_staked: bool,
    pub deposit_cycle: u64,
    pub withdraw_cycle: u64,
    pub bond_status: BondStatus,
    pub req_unbond_time: u64,
}

impl TokenInfo {
    /// A record that belongs to nobody.
    pub fn default() -> (r: TokenInfo)
        ensures
            r.owner@ == Seq::<char>::empty(),
            !r.is_staked,
            r.deposit_cycle == 0,
            r.withdraw_cycle == 0,
            r.bond_status == BondStatus::Unspecified,
            r.req_unbond_time == 0,
    {
        TokenInfo {
            owner: String::new(),
            is_staked: false,
            deposit_cycle: 0,
            withdraw_cycle: 0,
            bond_status: BondStatus::Unspecified,
            req_unbond_time: 0,
        }
    }

    /// The ledger record of a token, when `sender` owns it.
    pub fn check_staker(token_info: Option<TokenInfo>, sender: &String) -> (r: Result<
        TokenInfo,
        ContractError,
    >)
        ensures
            token_info is None ==> r == Err::<TokenInfo, ContractError>(ContractError::InvalidTokenId {}),
            token_info is Some && token_info->Some_0.owner@ != sender@ ==> r == Err::<
                TokenInfo,
                ContractError,
            >(
                ContractError::InvalidNftOwner {
                    requester: *sender,
                    nft_owner: token_info->Some_0.owner,
                },
            ),
            token_info is Some && token_info->Some_0.owner@ == sender@ ==> r == Ok::<
                TokenInfo,
                ContractError,
            >(token_info->Some_0),
    {
        match token_info {
            None => Err(ContractError::InvalidTokenId {}),
            Some(t) => {
                if t.owner == *sender {
                    Ok(t)
                } else {
                    Err(ContractError::InvalidNftOwner { requester: sender.clone(), nft_owner: t.owner })
                }
            },
        }
    }

    /// The record of a token that `owner` staked in `deposit_cycle`.
    pub open spec fn stake_spec(owner: String, deposit_cycle: u64) -> TokenInfo {
        TokenInfo {
            owner,
            is_staked: true,
            deposit_cycle,
            withdraw_cycle: 0,
            bond_status: BondStatus::Bonded,
            req_unbond_time: 0,
        }
    }

    /// The record of a token staked by `owner` in `deposit_cycle`.
    pub fn stake(owner: String, is_staked: bool, deposit_cycle: u64) -> (r: TokenInfo)
        ensures
            r == (TokenInfo {
                owner,
                is_staked,
                deposit_cycle,
                withdraw_cycle: 0,
                bond_status: BondStatus::Bonded,
                req_unbond_time: 0,
            }),
    {
        TokenInfo {
            owner,
            is_staked,
            deposit_cycle,
            withdraw_cycle: 0,
            bond_status: BondStatus::Bonded,
            req_unbond_time: 0,
        }
    }

    /// The record of a token whose exit was requested at `req_unbond_time`.
    pub fn unstake_unbonding(
        owner: String,
        is_staked: bool,
        deposit_cycle: u64,
        withdraw_cycle: u64,
        req_unbond_time: u64,
    ) -> (r: TokenInfo)
        ensures
            r == (TokenInfo {
                owner,
                is_staked,
                deposit_cycle,
                withdraw_cycle,
                bond_status: BondStatus::Unbonding,
                req_unbond_time,
            }),
    {
        TokenInfo {
            owner,
            is_staked,
            deposit_cycle,
            withdraw_cycle,
            bond_status: BondStatus::Unbonding,
            req_unbond_time,
        }
    }

    /// The record of a token whose unbonding time has passed.
    pub fn unstake_unbonded(
        owner: String,
        is_staked: bool,
        deposit_cycle: u64,
        withdraw_cycle: u64,
        req_unbond_time: u64,
    ) -> (r: TokenInfo)
        ensures
            r == (TokenInfo {
                owner,
                is_staked,
                deposit_cycle,
                withdraw_cycle,
                bond_status: BondStatus::Unbonded,
                req_unbond_time,
            }),
    {
        TokenInfo {
            owner,
            is_staked,
            deposit_cycle,
            withdraw_cycle,
            bond_status: BondStatus::Unbonded,
            req_unbond_time,
        }
    }

    /// The cleared record of a token that has left the contract.
    pub fn unstake(is_staked: bool, deposit_cycle: u64, withdraw_cycle: u64) -> (r: TokenInfo)
        ensures
            r.owner@ == Seq::<char>::empty(),
            r.is_staked == is_staked,
            r.deposit_cycle == deposit_cycle,
            r.withdraw_cycle == withdraw_cycle,
            r.bond_status == BondStatus::Unspecified,
            r.req_unbond_time == 0,
    {
        TokenInfo {
            owner: String::new(),
            is_staked,
            deposit_cycle,
            withdraw_cycle,
            bond_status: BondStatus::Unspecified,
            req_unbond_time: 0,
        }
    }
}

/// The claim cursor of a position: the next period to claim and the
/// snapshot that is active at its start.
#[derive(Clone, Copy, Debug, PartialEq, Eq, Structural)]
pub struct NextClaim {
    pub period: u64,
    pub staker_snapshot_index: u64,
}

impl NextClaim {
    pub fn default() -> (r: NextClaim)
        ensures
            r == (NextClaim { period: 0, staker_snapshot_index: 0 }),
    {
        NextClaim { period: 0, staker_snapshot_index: 0 }
    }

    pub fn new(period: u64, staker_snapshot_index: u64) -> (r: NextClaim)
        ensures
            r == (NextClaim { period, staker_snapshot_index }),
    {
        NextClaim { period, staker_snapshot_index }
    }
}

/// What one run of the reward calculator yields.
#[derive(Clone, Copy, Debug, PartialEq, Eq, Structural)]
pub struct Claim {
    pub start_period: u64,
    pub periods: u64,
    pub amount: u128,
}

impl Claim {
    pub fn default() -> (r: Claim)
        ensures
            r == (Claim { start_period: 0, periods: 0, amount: 0 }),
    {
        Claim { start_period: 0, periods: 0, amount: 0 }
    }
}

} // verus!
