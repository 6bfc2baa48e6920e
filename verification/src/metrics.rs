//! The metrics reducer: counts and timing statistics of a finished list of
//! results.

use vstd::prelude::*;

use crate::result::{AgentResult, AgentResultView, result_views};

verus! {

/// One more than the largest duration a result can hold.
pub open spec fn duration_range() -> nat {
    (u128::MAX + 1) as nat
}

/// A sum of durations. It is wider than any one of them, so that the sum of
/// a whole list always fits: its value is `high` times the range of a
/// duration, plus `low`.
#[derive(Clone, Copy, Debug, PartialEq, Eq, Structural)]
pub struct Wide {
    pub high: u64,
    pub low: u128,
}

impl View for Wide {
    type V = nat;

    open spec fn view(&self) -> nat {
        self.high as nat * duration_range() + self.low as nat
    }
}

impl Wide {
    /// The sum of nothing.
    pub fn zero() -> (sum: Wide)
        ensures
            sum@ == 0,
            sum == (Wide { high: 0, low: 0 }),
    {
        Wide { high: 0, low: 0 }
    }

    /// The sum with one more duration added to it.
    fn plus(self, duration: u128) -> (sum: Wide)
        requires
            self.high < u64::MAX,
        ensures
            sum@ == self@ + duration,
            sum.high <= self.high + 1,
    {
        let room = u128::MAX - self.low;
        if duration <= room {
            Wide { high: self.high, low: self.low + duration }
        } else {
            assert((self.high + 1) * duration_range() == self.high * duration_range()
                + duration_range()) by (nonlinear_arith);
            Wide { high: self.high + 1, low: duration - room - 1 }
        }
    }
}

/// A sum is written in one way only: two sums of the same value have the
/// same parts.
pub proof fn lemma_wide_is_canonical(a: Wide, b: Wide)
    requires
        a@ == b@,
    ensures
        a == b,
{
    if a.high < b.high {
        assert(b.high * duration_range() >= a.high * duration_range() + duration_range())
            by (nonlinear_arith)
            requires
                a.high < b.high,
        ;
    } else if b.high < a.high {
        assert(a.high * duration_range() >= b.high * duration_range() + duration_range())
            by (nonlinear_arith)
            requires
                b.high < a.high,
        ;
    }
}

/// A non-negative rational number, `numerator / denominator`, whose
/// denominator is positive.
#[derive(Clone, Copy, Debug, PartialEq, Eq, Structural)]
pub struct Ratio {
    pub numerator: Wide,
    pub denominator: usize,
}

/// The mathematical content of a [`Ratio`].
pub struct RatioView {
    pub numerator: nat,
    pub denominator: nat,
}

impl View for Ratio {
    type V = RatioView;

    open spec fn view(&self) -> RatioView {
        RatioView { numerator: self.numerator@, denominator: self.denominator as nat }
    }
}

/// Aggregate counts and timing of a list of results. Times are in
/// milliseconds; the average is kept exact, as a ratio.
#[derive(Clone, Copy, Debug, PartialEq, Eq, Structural)]
pub struct ExecutionMetrics {
    pub total_agents: usize,
    pub successful: usize,
    pub failed: usize,
    pub total_time: Wide,
    pub average_time: Ratio,
}

/// The mathematical content of an [`ExecutionMetrics`].
pub struct ExecutionMetricsView {
    pub total_agents: nat,
    pub successful: nat,
    pub failed: nat,
    pub total_time: nat,
    pub average_time: RatioView,
}

impl View for ExecutionMetrics {
    type V = ExecutionMetricsView;

    open spec fn view(&self) -> ExecutionMetricsView {
        ExecutionMetricsView {
            total_agents: self.total_agents as nat,
            successful: self.successful as nat,
            failed: self.failed as nat,
            total_time: self.total_time@,
            average_time: self.average_time@,
        }
    }
}

/// How many of `results` have exactly the completed marker as their status.
pub open spec fn successful(results: Seq<AgentResultView>) -> nat
    decreases results.len(),
{
    if results.len() == 0 {
        0
    } else {
        successful(results.drop_last()) + if results.last().completed() {
            1nat
        } else {
            0nat
        }
    }
}

/// How many of `results` have any other status.
pub open spec fn failed(results: Seq<AgentResultView>) -> nat
    decreases results.len(),
{
    if results.len() == 0 {
        0
    } else {
        failed(results.drop_last()) + if results.last().completed() {
            0nat
        } else {
            1nat
        }
    }
}

/// The sum of the durations of `results`.
pub open spec fn total_time(results: Seq<AgentResultView>) -> nat
    decreases results.len(),
{
    if results.len() == 0 {
        0
    } else {
        total_time(results.drop_last()) + results.last().duration_ms as nat
    }
}

/// The average duration of `results`: their total time over their number,
/// and zero for an empty list.
pub open spec fn average_time(results: Seq<AgentResultView>) -> RatioView {
    if results.len() == 0 {
        RatioView { numerator: 0, denominator: 1 }
    } else {
        RatioView { numerator: total_time(results), denominator: results.len() }
    }
}

/// The metrics of `results`.
pub open spec fn metrics_of(results: Seq<AgentResultView>) -> ExecutionMetricsView {
    ExecutionMetricsView {
        total_agents: results.len(),
        successful: successful(results),
        failed: failed(results),
        total_time: total_time(results),
        average_time: average_time(results),
    }
}

/// Every result counts once, as successful or as failed.
pub proof fn lemma_successful_plus_failed(results: Seq<AgentResultView>)
    ensures
        successful(results) + failed(results) == results.len(),
        metrics_of(results).successful + metrics_of(results).failed == metrics_of(
            results,
        ).total_agents,
    decreases results.len(),
{
    if results.len() > 0 {
        lemma_successful_plus_failed(results.drop_last());
    }
}

/// The metrics of no results are all zero, the average included.
pub proof fn lemma_metrics_of_nothing()
    ensures
        metrics_of(Seq::empty()) == (ExecutionMetricsView {
            total_agents: 0,
            successful: 0,
            failed: 0,
            total_time: 0,
            average_time: RatioView { numerator: 0, denominator: 1 },
        }),
{
}

/// The total time of a list grows by each result's duration, and the
/// average of a non-empty list, times the number of results, is the total
/// time.
pub proof fn lemma_total_and_average(results: Seq<AgentResultView>, next: AgentResultView)
    ensures
        total_time(results.push(next)) == total_time(results) + next.duration_ms,
        results.len() > 0 ==> average_time(results).numerator == total_time(results)
            && average_time(results).denominator == results.len(),
        metrics_of(results).average_time.numerator == metrics_of(results).total_time,
        metrics_of(results).average_time.denominator >= 1,
{
    assert(results.push(next).drop_last() =~= results);
}

/// Reduces a list of results to its metrics.
///
/// A result counts as successful when its status is exactly the completed
/// marker, and as failed otherwise. The durations of all results, failed
/// ones included, go into the total, and the average is the total over the
/// number of all results, or zero where there is none.
pub fn get_metrics(results: &Vec<AgentResult>) -> (metrics: ExecutionMetrics)
    ensures
        metrics@ == metrics_of(result_views(results@)),
        metrics.successful + metrics.failed == metrics.total_agents == results@.len(),
        results@.len() > 0 ==> metrics.average_time == (Ratio {
            numerator: metrics.total_time,
            denominator: metrics.total_agents,
        }),
        results@.len() == 0 ==> metrics.average_time == (Ratio {
            numerator: Wide { high: 0, low: 0 },
            denominator: 1,
        }),
{
    let ghost views = result_views(results@);
    let total_agents = results.len();
    let mut successful_so_far: usize = 0;
    let mut total = Wide::zero();
    let mut i: usize = 0;
    while i < total_agents
        invariant
            i <= total_agents,
            total_agents == results.len(),
            views == result_views(results@),
            successful_so_far == successful(views.take(i as int)),
            successful_so_far + failed(views.take(i as int)) == i,
            total@ == total_time(views.take(i as int)),
            total.high <= i,
        decreases total_agents - i,
    {
        proof {
            assert(views.take(i + 1).drop_last() =~= views.take(i as int));
        }
        if results[i].is_completed() {
            successful_so_far += 1;
        }
        total = total.plus(results[i].duration_ms);
        i += 1;
    }
    assert(views.take(i as int) =~= views);
    let failed_count = total_agents - successful_so_far;
    let average = if total_agents > 0 {
        Ratio { numerator: total, denominator: total_agents }
    } else {
        Ratio { numerator: Wide::zero(), denominator: 1 }
    };
    ExecutionMetrics {
        total_agents,
        successful: successful_so_far,
        failed: failed_count,
        total_time: total,
        average_time: average,
    }
}

} // verus!
