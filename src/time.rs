use vstd::prelude::*;

use crate::error::ContractError;
use crate::state::Config;

verus! {

/// The shortest cycle, in seconds.
pub const MIN_CYCLE_LENGTH: u64 = 10;

/// The fewest cycles in a period.
pub const MIN_PERIOD: u64 = 2;

/// The 1-based cycle that contains `timestamp`.
pub open spec fn cycle_of(timestamp: int, start_timestamp: int, cycle_length: int) -> int {
    (timestamp - start_timestamp) / cycle_length + 1
}

/// The 1-based period that contains `cycle`.
pub open spec fn period_of(cycle: int, period_length: int) -> int {
    (cycle - 1) / period_length + 1
}

/// The first cycle of `period`.
pub open spec fn first_cycle(period: int, period_length: int) -> int {
    (period - 1) * period_length + 1
}

/// The cycle in which `timestamp` falls, counted from the contract start.
pub fn get_cycle(timestamp: u64, start_timestamp: u64, config: &Config) -> (r: Result<u64, ContractError>)
    requires
        config.wf(),
    ensures
        timestamp < start_timestamp ==> r == Err::<u64, ContractError>(
            ContractError::TimestampPreceesContractStart {},
        ),
        timestamp >= start_timestamp ==> r is Ok && r->Ok_0 == cycle_of(
            timestamp as int,
            start_timestamp as int,
            config.cycle_length_in_seconds as int,
        ),
        r is Ok ==> r->Ok_0 >= 1,
{
    if timestamp < start_timestamp {
        return Err(ContractError::TimestampPreceesContractStart {});
    }
    let elapsed: u64 = timestamp - start_timestamp;
    proof {
        vstd::arithmetic::div_mod::lemma_div_is_ordered_by_denominator(
            elapsed as int,
            2,
            config.cycle_length_in_seconds as int,
        );
        assert(elapsed as int / 2 < u64::MAX) by (nonlinear_arith)
            requires
                elapsed <= u64::MAX,
        ;
    }
    Ok(elapsed / config.cycle_length_in_seconds + 1)
}

/// The period in which `cycle` falls.
pub fn get_period(cycle: u64, config: &Config) -> (r: Result<u64, ContractError>)
    requires
        config.wf(),
    ensures
        cycle == 0 ==> r == Err::<u64, ContractError>(ContractError::CycleNotZero {}),
        cycle > 0 ==> r is Ok && r->Ok_0 == period_of(
            cycle as int,
            config.period_length_in_cycles as int,
        ),
        r is Ok ==> 1 <= r->Ok_0 <= cycle,
{
    if cycle == 0 {
        return Err(ContractError::CycleNotZero {});
    }
    proof {
        assert((cycle - 1) as int / (config.period_length_in_cycles as int) <= cycle - 1)
            by (nonlinear_arith)
            requires
                cycle >= 1,
                config.period_length_in_cycles >= 2,
        ;
    }
    Ok((cycle - 1) / config.period_length_in_cycles + 1)
}

/// The period in which `now` falls.
pub fn get_current_period(now: u64, start_timestamp: u64, config: &Config) -> (r: Result<
    u64,
    ContractError,
>)
    requires
        config.wf(),
    ensures
        now < start_timestamp ==> r == Err::<u64, ContractError>(
            ContractError::TimestampPreceesContractStart {},
        ),
        now >= start_timestamp ==> r is Ok && r->Ok_0 == current_period_of(
            now as int,
            start_timestamp as int,
            *config,
        ),
        r is Ok ==> r->Ok_0 >= 1,
{
    let cycle = get_cycle(now, start_timestamp, config)?;
    get_period(cycle, config)
}

/// The period in which `now` falls, under the time grid of `config`.
pub open spec fn current_period_of(now: int, start_timestamp: int, config: Config) -> int {
    period_of(
        cycle_of(now, start_timestamp, config.cycle_length_in_seconds as int),
        config.period_length_in_cycles as int,
    )
}

/// Accepts a cycle length of at least `MIN_CYCLE_LENGTH` seconds.
pub fn is_valid_cycle_length(cycle_length_in_seconds: u64) -> (r: Result<bool, ContractError>)
    ensures
        cycle_length_in_seconds < MIN_CYCLE_LENGTH ==> r == Err::<bool, ContractError>(
            ContractError::CycleLengthInvalid { min_cycle_length: MIN_CYCLE_LENGTH, cycle_length_in_seconds },
        ),
        cycle_length_in_seconds >= MIN_CYCLE_LENGTH ==> r == Ok::<bool, ContractError>(true),
{
    if cycle_length_in_seconds < MIN_CYCLE_LENGTH {
        Err(ContractError::CycleLengthInvalid { min_cycle_length: MIN_CYCLE_LENGTH, cycle_length_in_seconds })
    } else {
        Ok(true)
    }
}

/// Accepts a period length of at least `MIN_PERIOD` cycles.
pub fn is_valid_period_length(period_length_in_cycles: u64) -> (r: Result<bool, ContractError>)
    ensures
        period_length_in_cycles < MIN_PERIOD ==> r == Err::<bool, ContractError>(
            ContractError::PeriodLengthInvalid { min_period: MIN_PERIOD, period_length_in_cycles },
        ),
        period_length_in_cycles >= MIN_PERIOD ==> r == Ok::<bool, ContractError>(true),
{
    if period_length_in_cycles < MIN_PERIOD {
        Err(ContractError::PeriodLengthInvalid { min_period: MIN_PERIOD, period_length_in_cycles })
    } else {
        Ok(true)
    }
}

/// Periods and cycles of timestamps that fit in 64 bits fit in 64 bits too.
pub proof fn lemma_period_fits(now: int, start_timestamp: int, config: Config)
    requires
        config.wf(),
        0 <= start_timestamp <= now <= u64::MAX,
    ensures
        1 <= cycle_of(now, start_timestamp, config.cycle_length_in_seconds as int) <= u64::MAX,
        1 <= current_period_of(now, start_timestamp, config) <= cycle_of(
            now,
            start_timestamp,
            config.cycle_length_in_seconds as int,
        ),
{
    let cl = config.cycle_length_in_seconds as int;
    let pl = config.period_length_in_cycles as int;
    let c = cycle_of(now, start_timestamp, cl);
    assert(0 <= (now - start_timestamp) / cl <= (now - start_timestamp) / 2) by (nonlinear_arith)
        requires
            now - start_timestamp >= 0,
            cl >= 10,
    ;
    assert(0 <= (c - 1) / pl <= c - 1) by (nonlinear_arith)
        requires
            c >= 1,
            pl >= 2,
    ;
}

/// The period reached at a timestamp never decreases as the timestamp grows.
pub proof fn lemma_period_monotonic(t1: int, t2: int, start_timestamp: int, config: Config)
    requires
        config.wf(),
        start_timestamp <= t1 <= t2,
    ensures
        current_period_of(t1, start_timestamp, config) <= current_period_of(t2, start_timestamp, config),
{
    let cl = config.cycle_length_in_seconds as int;
    let pl = config.period_length_in_cycles as int;
    vstd::arithmetic::div_mod::lemma_div_is_ordered(t1 - start_timestamp, t2 - start_timestamp, cl);
    let c1 = cycle_of(t1, start_timestamp, cl);
    let c2 = cycle_of(t2, start_timestamp, cl);
    vstd::arithmetic::div_mod::lemma_div_is_ordered(c1 - 1, c2 - 1, pl);
}

} // verus!
