use vstd::prelude::*;

use crate::msg::UpdateHistoriesMsg;
use crate::state::Snapshot;

verus! {

/// Snapshots begin in strictly increasing cycles: one entry per cycle.
pub open spec fn sorted_history(h: Seq<Snapshot>) -> bool {
    forall|a: int, b: int| 0 <= a < b < h.len() ==> h[a].start_cycle < h[b].start_cycle
}

/// Whether the position is staked during `cycle`, reading the history from
/// index `i` on: the latest snapshot at or after `i` that has begun by `cycle`
/// decides; before the first of them the position is not staked.
pub open spec fn staked_at(h: Seq<Snapshot>, i: int, cycle: int) -> bool
    decreases h.len(),
{
    if h.len() == 0 || h.len() <= i {
        false
    } else if h.last().start_cycle <= cycle {
        h.last().is_staked
    } else {
        staked_at(h.drop_last(), i, cycle)
    }
}

/// How many cycles of `[lo, hi)` are staked, reading the history from `i` on.
pub open spec fn staked_cycles(h: Seq<Snapshot>, i: int, lo: int, hi: int) -> nat
    decreases hi - lo,
{
    if hi <= lo {
        0
    } else {
        staked_cycles(h, i, lo, hi - 1) + if staked_at(h, i, hi - 1) {
            1nat
        } else {
            0nat
        }
    }
}

/// The snapshot index reached from `i` once every snapshot that begins by
/// `cycle` has been passed.
pub open spec fn advance(h: Seq<Snapshot>, i: int, cycle: int) -> int
    decreases h.len() - i,
{
    if 0 <= i && i + 1 < h.len() && h[i + 1].start_cycle <= cycle {
        advance(h, i + 1, cycle)
    } else {
        i
    }
}

/// The history after a stake-state change to `is_staked` in `cycle`: a
/// change within the cycle of the last entry replaces that entry.
pub open spec fn recorded(h: Seq<Snapshot>, is_staked: bool, cycle: u64) -> Seq<Snapshot> {
    if h.len() > 0 && h.last().start_cycle == cycle {
        h.update(h.len() - 1, Snapshot { is_staked, start_cycle: cycle })
    } else {
        h.push(Snapshot { is_staked, start_cycle: cycle })
    }
}

/// The history once the entries strictly between `old_index` and
/// `new_index` are dropped.
pub open spec fn compacted(h: Seq<Snapshot>, old_index: int, new_index: int) -> Seq<Snapshot> {
    if old_index < new_index {
        h.subrange(0, old_index + 1) + h.subrange(new_index, h.len() as int)
    } else {
        h
    }
}

/// Where the entry at `new_index` stands after that compaction.
pub open spec fn compacted_index(old_index: int, new_index: int) -> int {
    if old_index < new_index {
        old_index + 1
    } else {
        new_index
    }
}

/// Reading from a later index changes nothing once the snapshot there has begun.
pub proof fn lemma_staked_from_later(h: Seq<Snapshot>, i: int, j: int, cycle: int)
    requires
        sorted_history(h),
        0 <= i <= j < h.len(),
        j == i || h[j].start_cycle <= cycle,
    ensures
        staked_at(h, i, cycle) == staked_at(h, j, cycle),
    decreases h.len(),
{
    if h.last().start_cycle > cycle && j < h.len() - 1 {
        lemma_staked_from_later(h.drop_last(), i, j, cycle);
    }
}

/// Inside the cycles of snapshot `j`, the position is staked as `j` says.
pub proof fn lemma_staked_active(h: Seq<Snapshot>, i: int, j: int, cycle: int)
    requires
        sorted_history(h),
        0 <= i <= j < h.len(),
        h[j].start_cycle <= cycle,
        j + 1 == h.len() || cycle < h[j + 1].start_cycle,
    ensures
        staked_at(h, i, cycle) == h[j].is_staked,
    decreases h.len(),
{
    if j < h.len() - 1 {
        assert(h.last().start_cycle >= h[j + 1].start_cycle);
        lemma_staked_active(h.drop_last(), i, j, cycle);
    }
}

/// Before the snapshot at `i` begins, the position is not staked.
pub proof fn lemma_staked_before(h: Seq<Snapshot>, i: int, cycle: int)
    requires
        sorted_history(h),
        0 <= i < h.len(),
        cycle < h[i].start_cycle,
    ensures
        !staked_at(h, i, cycle),
    decreases h.len(),
{
    assert(h.last().start_cycle >= h[i].start_cycle);
    if i < h.len() - 1 {
        lemma_staked_before(h.drop_last(), i, cycle);
    } else {
        assert(!staked_at(h.drop_last(), i, cycle));
    }
}

/// Appending a range of cycles that all share one stake state.
pub proof fn lemma_cycles_constant(h: Seq<Snapshot>, i: int, lo: int, a: int, b: int, s: bool)
    requires
        lo <= a <= b,
        forall|c: int| a <= c < b ==> #[trigger] staked_at(h, i, c) == s,
    ensures
        staked_cycles(h, i, lo, b) == staked_cycles(h, i, lo, a) + if s {
            b - a
        } else {
            0
        },
    decreases b - a,
{
    if a < b {
        assert(staked_at(h, i, b - 1) == s);
        lemma_cycles_constant(h, i, lo, a, b - 1, s);
    }
}

/// Counting over `[lo, b)` is counting over `[lo, a)` and then over `[a, b)`.
pub proof fn lemma_cycles_split(h: Seq<Snapshot>, i: int, lo: int, a: int, b: int)
    requires
        lo <= a <= b,
    ensures
        staked_cycles(h, i, lo, b) == staked_cycles(h, i, lo, a) + staked_cycles(h, i, a, b),
    decreases b - a,
{
    if a < b {
        lemma_cycles_split(h, i, lo, a, b - 1);
    }
}

/// Two readings that agree on every cycle of a range count it alike.
pub proof fn lemma_cycles_agree(h1: Seq<Snapshot>, i1: int, h2: Seq<Snapshot>, i2: int, a: int, b: int)
    requires
        forall|c: int| a <= c < b ==> #[trigger] staked_at(h1, i1, c) == staked_at(h2, i2, c),
    ensures
        staked_cycles(h1, i1, a, b) == staked_cycles(h2, i2, a, b),
    decreases b - a,
{
    if a < b {
        assert(staked_at(h1, i1, b - 1) == staked_at(h2, i2, b - 1));
        lemma_cycles_agree(h1, i1, h2, i2, a, b - 1);
    }
}

/// The index that `advance` reaches is the one that is active at `cycle`.
pub proof fn lemma_advance_is(h: Seq<Snapshot>, i: int, j: int, cycle: int)
    requires
        sorted_history(h),
        0 <= i <= j < h.len(),
        j == i || h[j].start_cycle <= cycle,
        j + 1 == h.len() || h[j + 1].start_cycle > cycle,
    ensures
        advance(h, i, cycle) == j,
    decreases j - i,
{
    if i < j {
        assert(h[i + 1].start_cycle <= h[j].start_cycle);
        lemma_advance_is(h, i + 1, j, cycle);
    }
}

/// `advance` stays in the history, moves only forward, and stops at the
/// snapshot that is active at `cycle`.
pub proof fn lemma_advance_bounds(h: Seq<Snapshot>, i: int, cycle: int)
    requires
        0 <= i < h.len(),
    ensures
        i <= advance(h, i, cycle) < h.len(),
        advance(h, i, cycle) == i || h[advance(h, i, cycle)].start_cycle <= cycle,
        advance(h, i, cycle) + 1 == h.len() || h[advance(h, i, cycle) + 1].start_cycle > cycle,
    decreases h.len() - i,
{
    if i + 1 < h.len() && h[i + 1].start_cycle <= cycle {
        lemma_advance_bounds(h, i + 1, cycle);
    }
}

/// Whether the snapshots begin in strictly increasing cycles.
pub fn history_is_sorted(history: &Vec<Snapshot>) -> (r: bool)
    ensures
        r == sorted_history(history@),
{
    let len = history.len();
    let mut k: usize = 1;
    while k < len
        invariant
            len == history@.len(),
            1 <= k,
            forall|a: int, b: int|
                0 <= a < b < len && b < k ==> history@[a].start_cycle < history@[b].start_cycle,
        decreases len - k,
    {
        if history[k - 1].start_cycle >= history[k].start_cycle {
            return false;
        }
        proof {
            assert forall|a: int, b: int|
                0 <= a < b < len && b < k + 1 implies history@[a].start_cycle
                < history@[b].start_cycle by {
                if b == k && a < k - 1 {
                    assert(history@[a].start_cycle < history@[k - 1].start_cycle);
                }
            }
        }
        k = k + 1;
    }
    true
}

/// Records a stake-state change of the position in `current_cycle` and
/// returns the index of the entry that holds it.
pub fn update_staker_history(history: &mut Vec<Snapshot>, is_staked: bool, current_cycle: u64) -> (r:
    u64)
    requires
        sorted_history(old(history)@),
        old(history)@.len() == 0 || old(history)@.last().start_cycle <= current_cycle,
    ensures
        final(history)@ == recorded(old(history)@, is_staked, current_cycle),
        r as int == final(history)@.len() - 1,
        sorted_history(final(history)@),
{
    let len = history.len();
    if len > 0 && history[len - 1].start_cycle == current_cycle {
        history.set(len - 1, Snapshot { is_staked, start_cycle: current_cycle });
        (len - 1) as u64
    } else {
        history.push(Snapshot { is_staked, start_cycle: current_cycle });
        len as u64
    }
}

/// Records a stake-state change in the history kept under
/// `staker_tokenid_key` and reports it.
pub fn update_histories(
    history: &mut Vec<Snapshot>,
    staker_tokenid_key: String,
    is_staked: bool,
    current_cycle: u64,
) -> (r: UpdateHistoriesMsg)
    requires
        sorted_history(old(history)@),
        old(history)@.len() == 0 || old(history)@.last().start_cycle <= current_cycle,
    ensures
        final(history)@ == recorded(old(history)@, is_staked, current_cycle),
        sorted_history(final(history)@),
        r == (UpdateHistoriesMsg {
            staker: staker_tokenid_key,
            current_cycle,
            staker_histories_stake: is_staked,
        }),
{
    update_staker_history(history, is_staked, current_cycle);
    let len = history.len();
    assert(history@[len - 1] == Snapshot { is_staked, start_cycle: current_cycle });
    let snapshot = history[len - 1];
    UpdateHistoriesMsg {
        staker: staker_tokenid_key,
        current_cycle,
        staker_histories_stake: snapshot.is_staked,
    }
}

/// Drops the history entries strictly between the cursor's old and new
/// snapshot index, which no later claim can revisit, and returns the new
/// index of the entry the cursor now points to.
pub fn compact_history(history: &mut Vec<Snapshot>, old_index: u64, new_index: u64) -> (r: u64)
    requires
        old_index <= new_index < old(history)@.len(),
    ensures
        final(history)@ == compacted(old(history)@, old_index as int, new_index as int),
        r as int == compacted_index(old_index as int, new_index as int),
        final(history)@[r as int] == old(history)@[new_index as int],
{
    let len = history.len();
    if new_index <= old_index + 1 {
        assert(compacted(old(history)@, old_index as int, new_index as int) =~= old(history)@);
        return new_index;
    }
    let ghost h = history@;
    let mut kept: Vec<Snapshot> = Vec::new();
    let mut k: usize = 0;
    while k < len
        invariant
            history@ == h,
            len == h.len(),
            old_index < new_index < len,
            0 <= k <= len,
            kept@ =~= (if k <= old_index + 1 {
                h.subrange(0, k as int)
            } else if k <= new_index {
                h.subrange(0, old_index + 1)
            } else {
                h.subrange(0, old_index + 1) + h.subrange(new_index as int, k as int)
            }),
        decreases len - k,
    {
        if k as u64 <= old_index || k as u64 >= new_index {
            kept.push(history[k]);
        }
        k = k + 1;
    }
    *history = kept;
    old_index + 1
}

} // verus!
