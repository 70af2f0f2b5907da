//! The parallel-reduction bridge.
//!
//! [`reduce_parallel`] hands one unit of work to a work-stealing thread pool:
//! the sum of all elements of a borrowed sequence of unsigned integers. The
//! pool joins before the call returns, so exactly one result is produced per
//! invocation. An asynchronous caller that receives the result through a
//! one-shot handoff channel resolves the outcome with [`resolve_outcome`],
//! which substitutes the fallback value zero when the producer side was
//! dropped without sending.
//!
//! Overflow policy: the result is a `u64`, and callers must keep the true sum
//! within `u64::MAX`; any input of length at most 2^32 whose elements are at
//! most 2^32 - 1 is safe.

use rayon::iter::IntoParallelRefIterator;
use rayon::iter::ParallelIterator;
use vstd::prelude::*;

verus! {

/// The mathematical sum of a sequence of unsigned integers, the reduction's
/// identity element zero included for the empty sequence.
pub open spec fn seq_sum(s: Seq<u64>) -> int
    decreases s.len(),
{
    if s.len() == 0 {
        0
    } else {
        seq_sum(s.drop_last()) + s.last()
    }
}

/// Relies on rayon's `ParallelIterator::sum` over the slice's `u64` items:
/// the items are combined with `+` in an unspecified order, which for
/// unsigned addition free of overflow is exactly the sum of all elements,
/// whatever combination tree the pool picks.
#[verifier::external_body]
fn pool_sum(nums: &[u64]) -> (r: u64)
    requires
        seq_sum(nums@) <= u64::MAX,
    ensures
        r == seq_sum(nums@),
{
    nums.par_iter().sum()
}

/// Sums all elements of `nums` by a parallel divide-and-conquer reduction on
/// the work-stealing pool. The empty sequence sums to zero. The pool fully
/// joins before this returns, so the single result of the call is available
/// as soon as the call completes.
pub fn reduce_parallel(nums: &[u64]) -> (r: u64)
    requires
        seq_sum(nums@) <= u64::MAX,
    ensures
        r == seq_sum(nums@),
{
    pool_sum(nums)
}

/// Resolves the consumer side's view of the one-shot handoff: the delivered
/// value when the producer sent one, and the fallback value zero when the
/// producer side was dropped without sending. This is a deliberate
/// soft-degradation policy: the aggregate is best-effort, and the call never
/// fails.
pub fn resolve_outcome(outcome: Option<u64>) -> (r: u64)
    ensures
        outcome matches Some(v) ==> r == v,
        outcome is None ==> r == 0,
{
    match outcome {
        Some(v) => v,
        None => 0,
    }
}

/// Two completed reductions of one input observe one value: the result is a
/// function of the input sequence alone, with no hidden state shared across
/// calls, so repeating the call cannot change what it returns.
pub proof fn lemma_reduce_deterministic(s: Seq<u64>, r1: u64, r2: u64)
    requires
        r1 == seq_sum(s),
        r2 == seq_sum(s),
    ensures
        r1 == r2,
{
}

} // verus!
