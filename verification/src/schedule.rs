//! The schedule and the position stepping rules.
//!
//! A schedule is a non-empty list of blocks `(repeat_count, duration_seconds)`:
//! `repeat_count` images are shown for `duration_seconds` each before the
//! schedule moves on to the next block.  A position `(block, repetition)`
//! points at one repetition of one block.  Stepping realizes a two-level
//! ring: repetitions within a block, blocks within the schedule, both
//! wrapping cyclically, so the schedule has no end, only completed cycles.

use vstd::prelude::*;
use vstd::arithmetic::div_mod::{
    lemma_mod_add_multiples_vanish, lemma_small_mod,
};

verus! {

/// Upper bound on a block's duration in seconds, so that a duration
/// converted to milliseconds always fits in a `u64`.
pub const MAX_DURATION_SECS: usize = 1_000_000_000;

/// A well-formed schedule: non-empty, every block shows at least one image,
/// and every duration is at least one second and small enough to count in
/// milliseconds.
pub open spec fn schedule_wf(s: Seq<(usize, usize)>) -> bool {
    &&& 0 < s.len() <= usize::MAX
    &&& forall|i: int| 0 <= i < s.len() ==> 1 <= (#[trigger] s[i]).0
    &&& forall|i: int| 0 <= i < s.len() ==> 1 <= (#[trigger] s[i]).1 <= MAX_DURATION_SECS
}

/// A position is within bounds for the schedule it was computed against.
pub open spec fn pos_wf(p: (usize, usize), s: Seq<(usize, usize)>) -> bool {
    p.0 < s.len() && p.1 < s[p.0 as int].0
}

/// Where one forward step moves a position: the next repetition of the same
/// block, else the start of the next block, else back to `(0, 0)`.
pub open spec fn step_forward_pos(p: (usize, usize), s: Seq<(usize, usize)>) -> (usize, usize) {
    if p.1 + 1 < s[p.0 as int].0 {
        (p.0, (p.1 + 1) as usize)
    } else if p.0 + 1 < s.len() {
        ((p.0 + 1) as usize, 0usize)
    } else {
        (0usize, 0usize)
    }
}

/// Where a whole-block skip moves a position: the start of the next block,
/// or `(0, 0)` from the last block, whatever the current repetition.
pub open spec fn step_forward_block_pos(
    p: (usize, usize),
    s: Seq<(usize, usize)>,
) -> (usize, usize) {
    if p.0 + 1 < s.len() {
        ((p.0 + 1) as usize, 0usize)
    } else {
        (0usize, 0usize)
    }
}

/// Stepping keeps a position within bounds.
pub proof fn lemma_step_forward_pos_wf(p: (usize, usize), s: Seq<(usize, usize)>)
    requires
        schedule_wf(s),
        pos_wf(p, s),
    ensures
        pos_wf(step_forward_pos(p, s), s),
        pos_wf(step_forward_block_pos(p, s), s),
{
}

/// The position reached after `n` single steps.
pub open spec fn step_forward_n(
    p: (usize, usize),
    s: Seq<(usize, usize)>,
    n: nat,
) -> (usize, usize)
    decreases n,
{
    if n == 0 {
        p
    } else {
        step_forward_n(step_forward_pos(p, s), s, (n - 1) as nat)
    }
}

/// The position reached after `n` whole-block skips.
pub open spec fn step_forward_block_n(
    p: (usize, usize),
    s: Seq<(usize, usize)>,
    n: nat,
) -> (usize, usize)
    decreases n,
{
    if n == 0 {
        p
    } else {
        step_forward_block_n(step_forward_block_pos(p, s), s, (n - 1) as nat)
    }
}

/// Number of repetitions in the blocks before block `b`.
pub open spec fn prefix_reps(s: Seq<(usize, usize)>, b: int) -> int
    decreases b,
{
    if b <= 0 {
        0
    } else {
        prefix_reps(s, b - 1) + s[b - 1].0
    }
}

/// Number of repetitions in the whole schedule: the length of a full cycle.
pub open spec fn total_reps(s: Seq<(usize, usize)>) -> int {
    prefix_reps(s, s.len() as int)
}

/// How many single steps a position is from `(0, 0)`.
pub open spec fn rank(p: (usize, usize), s: Seq<(usize, usize)>) -> int {
    prefix_reps(s, p.0 as int) + p.1
}

proof fn lemma_prefix_reps_monotone(s: Seq<(usize, usize)>, b1: int, b2: int)
    requires
        b1 <= b2,
    ensures
        prefix_reps(s, b1) <= prefix_reps(s, b2),
    decreases b2 - b1,
{
    if b1 < b2 {
        lemma_prefix_reps_monotone(s, b1, b2 - 1);
    }
}

proof fn lemma_prefix_reps_at_least(s: Seq<(usize, usize)>, b: int)
    requires
        schedule_wf(s),
        0 <= b <= s.len(),
    ensures
        b <= prefix_reps(s, b),
    decreases b,
{
    if b > 0 {
        lemma_prefix_reps_at_least(s, b - 1);
    }
}

/// The rank of a valid position lies within one cycle.
pub proof fn lemma_rank_bounds(p: (usize, usize), s: Seq<(usize, usize)>)
    requires
        schedule_wf(s),
        pos_wf(p, s),
    ensures
        0 <= rank(p, s) < total_reps(s),
{
    lemma_prefix_reps_at_least(s, p.0 as int);
    assert(prefix_reps(s, p.0 + 1) == prefix_reps(s, p.0 as int) + s[p.0 as int].0);
    lemma_prefix_reps_monotone(s, p.0 + 1, s.len() as int);
}

/// Two valid positions with the same rank are the same position.
pub proof fn lemma_rank_injective(
    p1: (usize, usize),
    p2: (usize, usize),
    s: Seq<(usize, usize)>,
)
    requires
        schedule_wf(s),
        pos_wf(p1, s),
        pos_wf(p2, s),
        rank(p1, s) == rank(p2, s),
    ensures
        p1 == p2,
{
    if p1.0 < p2.0 {
        lemma_prefix_reps_monotone(s, p1.0 + 1, p2.0 as int);
        assert(rank(p1, s) < prefix_reps(s, p1.0 + 1));
    } else if p2.0 < p1.0 {
        lemma_prefix_reps_monotone(s, p2.0 + 1, p1.0 as int);
        assert(rank(p2, s) < prefix_reps(s, p2.0 + 1));
    }
}

/// One step moves the rank forward by one, wrapping from the last rank of a
/// cycle to zero.
proof fn lemma_step_rank(p: (usize, usize), s: Seq<(usize, usize)>)
    requires
        schedule_wf(s),
        pos_wf(p, s),
    ensures
        pos_wf(step_forward_pos(p, s), s),
        rank(step_forward_pos(p, s), s) == if rank(p, s) + 1 < total_reps(s) {
            rank(p, s) + 1
        } else {
            0
        },
{
    lemma_rank_bounds(p, s);
    let q = step_forward_pos(p, s);
    if p.1 + 1 < s[p.0 as int].0 {
        // Same block: rank goes from prefix + r to prefix + r + 1, still
        // strictly below the start of the next block, hence below the total.
        assert(rank(q, s) == rank(p, s) + 1);
        lemma_prefix_reps_monotone(s, p.0 + 1, s.len() as int);
        assert(rank(p, s) + 1 < prefix_reps(s, p.0 + 1));
    } else if p.0 + 1 < s.len() {
        // Next block: the old position was the last repetition, so its rank
        // plus one is exactly the prefix sum up to the next block.
        assert(prefix_reps(s, p.0 + 1) == prefix_reps(s, p.0 as int) + s[p.0 as int].0);
        assert(rank(q, s) == rank(p, s) + 1);
        lemma_prefix_reps_monotone(s, p.0 + 2, s.len() as int);
        assert(prefix_reps(s, p.0 + 2) == prefix_reps(s, p.0 + 1) + s[p.0 + 1].0);
    } else {
        // Wrap: the old position was the last repetition of the last block.
        assert(rank(p, s) + 1 == prefix_reps(s, p.0 + 1));
        assert(p.0 + 1 == s.len());
        assert(rank(q, s) == 0);
    }
}

/// After `n` steps the rank has advanced by `n`, modulo the cycle length.
proof fn lemma_step_n_rank(p: (usize, usize), s: Seq<(usize, usize)>, n: nat)
    requires
        schedule_wf(s),
        pos_wf(p, s),
    ensures
        pos_wf(step_forward_n(p, s, n), s),
        rank(step_forward_n(p, s, n), s) == (rank(p, s) + n) % total_reps(s),
    decreases n,
{
    let t = total_reps(s);
    lemma_rank_bounds(p, s);
    if n == 0 {
        lemma_small_mod(rank(p, s) as nat, t as nat);
    } else {
        let q = step_forward_pos(p, s);
        lemma_step_rank(p, s);
        lemma_step_n_rank(q, s, (n - 1) as nat);
        if rank(p, s) + 1 < t {
            assert(rank(q, s) + (n - 1) == rank(p, s) + n);
        } else {
            // The step wrapped: rank(p) was t - 1, so advancing by n from
            // rank(p) and by n - 1 from rank 0 agree modulo t.
            assert(rank(q, s) == 0);
            lemma_mod_add_multiples_vanish(n - 1, t);
            assert((rank(p, s) + n) == (n - 1) + t);
        }
    }
}

/// Wraparound: stepping forward exactly once per repetition in the schedule,
/// a full cycle, returns every position to itself.
pub proof fn lemma_wraparound(p: (usize, usize), s: Seq<(usize, usize)>)
    requires
        schedule_wf(s),
        pos_wf(p, s),
    ensures
        step_forward_n(p, s, total_reps(s) as nat) == p,
{
    let t = total_reps(s);
    lemma_rank_bounds(p, s);
    lemma_step_n_rank(p, s, t as nat);
    lemma_mod_add_multiples_vanish(rank(p, s), t);
    lemma_small_mod(rank(p, s) as nat, t as nat);
    lemma_rank_injective(step_forward_n(p, s, t as nat), p, s);
}

/// After `n >= 1` whole-block skips the position sits on repetition zero of
/// the block `n` places further on, modulo the number of blocks.
pub proof fn lemma_block_skip_n(p: (usize, usize), s: Seq<(usize, usize)>, n: nat)
    requires
        schedule_wf(s),
        pos_wf(p, s),
    ensures
        pos_wf(step_forward_block_n(p, s, n), s),
        n >= 1 ==> step_forward_block_n(p, s, n).1 == 0,
        n >= 1 ==> step_forward_block_n(p, s, n).0 == (p.0 + n) % (s.len() as int),
    decreases n,
{
    let len = s.len() as int;
    if n == 0 {
    } else {
        let q = step_forward_block_pos(p, s);
        lemma_block_skip_n(q, s, (n - 1) as nat);
        if n == 1 {
            if p.0 + 1 < len {
                lemma_small_mod((p.0 + 1) as nat, len as nat);
            } else {
                assert(p.0 + 1 == len);
                lemma_mod_add_multiples_vanish(0, len);
                lemma_small_mod(0nat, len as nat);
            }
        } else {
            if p.0 + 1 < len {
                assert(q.0 + (n - 1) == p.0 + n);
            } else {
                assert(q.0 == 0 && p.0 + 1 == len);
                lemma_mod_add_multiples_vanish(n - 1, len);
                assert((p.0 + n) == (n - 1) + len);
            }
        }
    }
}

/// Block-skip cycle: skipping one whole block per block in the schedule
/// returns to repetition zero of the starting block; from `(0, 0)` this is
/// `(0, 0)` again.
pub proof fn lemma_block_skip_cycle(p: (usize, usize), s: Seq<(usize, usize)>)
    requires
        schedule_wf(s),
        pos_wf(p, s),
    ensures
        step_forward_block_n(p, s, s.len()) == (p.0, 0usize),
{
    let len = s.len() as int;
    lemma_block_skip_n(p, s, s.len());
    lemma_mod_add_multiples_vanish(p.0 as int, len);
    lemma_small_mod(p.0 as nat, len as nat);
}

} // verus!
