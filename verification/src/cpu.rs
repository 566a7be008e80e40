//! Averaging of per-core busy shares into one figure for the whole machine.
//!
//! Shares are whole hundredths of a percent, so that 10000 stands for a
//! core that is busy all the time.

use vstd::prelude::*;

verus! {

/// The share of a core that is busy all the time, in hundredths of a percent.
pub const FULLY_BUSY: u32 = 10000;

/// The sum of the shares.
pub open spec fn total(shares: Seq<u32>) -> nat
    decreases shares.len(),
{
    if shares.len() == 0 {
        0
    } else {
        total(shares.drop_last()) + shares.last() as nat
    }
}

/// The arithmetic mean of the shares, truncated to a whole number; zero
/// where there is no core.
pub open spec fn mean(shares: Seq<u32>) -> nat {
    if shares.len() == 0 {
        0
    } else {
        total(shares) / shares.len()
    }
}

/// Every share is at most `bound`.
pub open spec fn all_at_most(shares: Seq<u32>, bound: nat) -> bool {
    forall|i: int| 0 <= i < shares.len() ==> #[trigger] shares[i] <= bound
}

/// Every share is at least `bound`.
pub open spec fn all_at_least(shares: Seq<u32>, bound: nat) -> bool {
    forall|i: int| 0 <= i < shares.len() ==> #[trigger] shares[i] >= bound
}

/// The sum of shares lies between the number of shares times a lower bound
/// of them and the number of shares times an upper bound of them.
pub proof fn lemma_total_bounds(shares: Seq<u32>, low: nat, high: nat)
    requires
        all_at_least(shares, low),
        all_at_most(shares, high),
    ensures
        shares.len() * low <= total(shares) <= shares.len() * high,
    decreases shares.len(),
{
    if shares.len() > 0 {
        let front = shares.drop_last();
        assert forall|i: int| 0 <= i < front.len() implies low <= #[trigger] front[i] <= high by {
            assert(front[i] == shares[i]);
        }
        lemma_total_bounds(front, low, high);
        assert(low <= shares.last() <= high);
        assert(shares.len() * low == front.len() * low + low) by (nonlinear_arith)
            requires
                shares.len() == front.len() + 1,
        ;
        assert(shares.len() * high == front.len() * high + high) by (nonlinear_arith)
            requires
                shares.len() == front.len() + 1,
        ;
    } else {
        assert(shares.len() * low == 0) by (nonlinear_arith)
            requires
                shares.len() == 0,
        ;
        assert(shares.len() * high == 0) by (nonlinear_arith)
            requires
                shares.len() == 0,
        ;
    }
}

/// The mean of some shares lies between any lower and any upper bound of
/// them: that of shares up to 10000 is itself at most 10000.
pub proof fn lemma_mean_within_bounds(shares: Seq<u32>, low: nat, high: nat)
    requires
        shares.len() > 0,
        all_at_least(shares, low),
        all_at_most(shares, high),
    ensures
        low <= mean(shares) <= high,
{
    lemma_total_bounds(shares, low, high);
    let count = shares.len();
    let sum = total(shares);
    assert(low <= sum / count <= high) by (nonlinear_arith)
        requires
            count > 0,
            count * low <= sum <= count * high,
    ;
}

/// Averages the busy shares of the cores: their arithmetic mean, truncated.
/// A machine that reports no core has the average zero.
pub fn average_usage(shares: &[u32]) -> (average: u32)
    ensures
        average == mean(shares@),
        shares@.len() == 0 ==> average == 0,
        forall|bound: nat| all_at_most(shares@, bound) && shares@.len() > 0 ==> average <= bound,
        forall|bound: nat| all_at_least(shares@, bound) && shares@.len() > 0 ==> average >= bound,
{
    let count: usize = shares.len();
    if count == 0 {
        return 0;
    }
    let mut sum: u128 = 0;
    let mut i: usize = 0;
    while i < count
        invariant
            i <= count,
            count == shares@.len(),
            sum == total(shares@.subrange(0, i as int)),
            sum <= i * 4294967295,
        decreases count - i,
    {
        proof {
            assert(shares@.subrange(0, i as int + 1).drop_last() =~= shares@.subrange(0, i as int));
        }
        sum = sum + shares[i] as u128;
        i += 1;
    }
    proof {
        assert(shares@.subrange(0, count as int) =~= shares@);
        assert(all_at_most(shares@, 4294967295));
        assert(all_at_least(shares@, 0));
        lemma_mean_within_bounds(shares@, 0, 4294967295);
        assert forall|bound: nat| all_at_most(shares@, bound) implies mean(shares@) <= bound by {
            lemma_mean_within_bounds(shares@, 0, bound);
        }
        assert forall|bound: nat| all_at_least(shares@, bound) implies mean(shares@) >= bound by {
            lemma_mean_within_bounds(shares@, bound, 4294967295);
        }
    }
    (sum / count as u128) as u32
}

} // verus!
