//! Orchestration of chart imports: the bounded admission of concurrent
//! charts, the per-chart tally and coverage fallback decision, and the
//! batch summary in which one failed chart never stops the others.

use vstd::prelude::*;
use crate::extract::LayerTally;

verus! {

/// How many charts may be imported at once: the requested parallelism,
/// kept below the connection pool's size so that every worker also has a
/// connection left for its catalogue queries; at least one.
pub open spec fn admission_bound(parallel: usize, pool_max: u32) -> int {
    let cap = if pool_max >= 2 {
        pool_max - 1
    } else {
        1
    };
    if parallel == 0 {
        1
    } else if parallel < cap {
        parallel as int
    } else {
        cap
    }
}

/// The size of the admission gate for `parallel` requested workers and a
/// pool of `pool_max` connections.
pub fn admission_limit(parallel: usize, pool_max: u32) -> (r: usize)
    ensures
        r == admission_bound(parallel, pool_max),
        r >= 1,
        pool_max >= 2 ==> r < pool_max,
        parallel >= 1 ==> r <= parallel,
{
    let cap: u32 = if pool_max >= 2 {
        pool_max - 1
    } else {
        1
    };
    if parallel == 0 {
        1
    } else if parallel < cap as usize {
        parallel
    } else {
        cap as usize
    }
}

/// The tally of one chart's import.
#[derive(Debug, Clone, Copy, PartialEq, Eq, Structural)]
pub struct ChartImport {
    pub has_coverage: bool,
    pub total: usize,
    pub errors: usize,
}

/// `a + b`, or the largest value where that does not fit.
pub open spec fn sat_add(a: usize, b: usize) -> usize {
    if a + b <= usize::MAX {
        (a + b) as usize
    } else {
        usize::MAX
    }
}

fn add_sat(a: usize, b: usize) -> (r: usize)
    ensures
        r == sat_add(a, b),
{
    if a <= usize::MAX - b {
        a + b
    } else {
        usize::MAX
    }
}

impl ChartImport {
    /// A chart about to be imported, with or without a coverage geometry.
    pub fn new(has_coverage: bool) -> (r: ChartImport)
        ensures
            r == (ChartImport { has_coverage, total: 0, errors: 0 }),
    {
        ChartImport { has_coverage, total: 0, errors: 0 }
    }

    /// Add one layer's counts.
    pub fn record_layer(&mut self, tally: &LayerTally)
        ensures
            final(self).has_coverage == old(self).has_coverage,
            final(self).total == sat_add(old(self).total, tally.inserted),
            final(self).errors == sat_add(old(self).errors, tally.errors),
    {
        self.total = add_sat(self.total, tally.inserted);
        self.errors = add_sat(self.errors, tally.errors);
    }

    /// Count a layer whose processing failed as a whole; the other layers
    /// go on.
    pub fn record_layer_failure(&mut self)
        ensures
            final(self).has_coverage == old(self).has_coverage,
            final(self).total == old(self).total,
            final(self).errors == sat_add(old(self).errors, 1),
    {
        self.errors = add_sat(self.errors, 1);
    }

    /// The coverage fallback runs, after the commit, for a chart without a
    /// coverage geometry that imported at least one feature.
    pub fn needs_coverage_fallback(&self) -> (r: bool)
        ensures
            r == (!self.has_coverage && self.total > 0),
    {
        !self.has_coverage && self.total > 0
    }

    /// A chart counts as failed only when it imported nothing and had
    /// errors.
    pub fn is_failure(&self) -> (r: bool)
        ensures
            r == (self.total == 0 && self.errors > 0),
    {
        self.total == 0 && self.errors > 0
    }
}

/// What became of one chart of a batch.
#[derive(Debug, Clone, Copy, PartialEq, Eq, Structural)]
pub enum ChartResult {
    Imported(usize),
    Skipped,
    Failed,
}

/// The features a chart contributes: none for a skipped or failed chart.
pub open spec fn result_features(r: ChartResult) -> nat {
    match r {
        ChartResult::Imported(n) => n as nat,
        _ => 0,
    }
}

/// The features over all charts.
pub open spec fn features_of(results: Seq<ChartResult>) -> nat
    decreases results.len(),
{
    if results.len() == 0 {
        0
    } else {
        features_of(results.drop_last()) + result_features(results.last())
    }
}

/// The number of failed charts.
pub open spec fn failures_of(results: Seq<ChartResult>) -> nat
    decreases results.len(),
{
    if results.len() == 0 {
        0
    } else {
        failures_of(results.drop_last()) + if results.last() == ChartResult::Failed {
            1nat
        } else {
            0nat
        }
    }
}

/// The number of features a chart result reports.
pub fn chart_feature_count(r: ChartResult) -> (n: usize)
    ensures
        n == result_features(r),
{
    match r {
        ChartResult::Imported(n) => n,
        _ => 0,
    }
}

/// Counts over a batch of charts.
#[derive(Debug, Clone, Copy, PartialEq, Eq, Structural)]
pub struct BatchSummary {
    pub charts: usize,
    pub failed: usize,
    pub features: usize,
}

impl BatchSummary {
    /// Nothing counted yet.
    pub fn new() -> (r: BatchSummary)
        ensures
            r == (BatchSummary { charts: 0, failed: 0, features: 0 }),
    {
        BatchSummary { charts: 0, failed: 0, features: 0 }
    }

    /// The summary holds exactly the counts of `results`.
    pub open spec fn counts(&self, results: Seq<ChartResult>) -> bool {
        &&& self.charts == results.len()
        &&& self.failed == failures_of(results)
        &&& self.features == features_of(results)
    }

    /// Count one more chart's result.
    pub fn record(&mut self, r: ChartResult)
        ensures
            final(self).charts == sat_add(old(self).charts, 1),
            final(self).failed == sat_add(old(self).failed, if r == ChartResult::Failed {
                1usize
            } else {
                0usize
            }),
            final(self).features == sat_add(old(self).features, chart_feature_count_spec(r)),
    {
        self.charts = add_sat(self.charts, 1);
        if r == ChartResult::Failed {
            self.failed = add_sat(self.failed, 1);
        }
        self.features = add_sat(self.features, chart_feature_count(r));
    }
}

/// The number of features a chart result reports, as a machine integer.
pub open spec fn chart_feature_count_spec(r: ChartResult) -> usize {
    match r {
        ChartResult::Imported(n) => n,
        _ => 0,
    }
}

/// Counting results one by one keeps the summary exact while the counts fit.
pub proof fn lemma_record_counts(s: BatchSummary, results: Seq<ChartResult>, r: ChartResult, s2: BatchSummary)
    requires
        s.counts(results),
        results.len() + 1 <= usize::MAX,
        features_of(results.push(r)) <= usize::MAX,
        s2.charts == sat_add(s.charts, 1),
        s2.failed == sat_add(s.failed, if r == ChartResult::Failed { 1usize } else { 0usize }),
        s2.features == sat_add(s.features, chart_feature_count_spec(r)),
    ensures
        s2.counts(results.push(r)),
{
    assert(results.push(r).drop_last() =~= results);
    assert(failures_of(results) <= results.len()) by {
        lemma_failures_bounded(results);
    }
}

proof fn lemma_failures_bounded(results: Seq<ChartResult>)
    ensures
        failures_of(results) <= results.len(),
    decreases results.len(),
{
    if results.len() > 0 {
        lemma_failures_bounded(results.drop_last());
    }
}

proof fn lemma_remove_one(results: Seq<ChartResult>, k: int)
    requires
        0 <= k < results.len(),
    ensures
        features_of(results) == features_of(results.remove(k)) + result_features(results[k]),
        failures_of(results) == failures_of(results.remove(k)) + if results[k] == ChartResult::Failed {
            1nat
        } else {
            0nat
        },
    decreases results.len(),
{
    let last = results.len() - 1;
    if k == last {
        assert(results.remove(k) =~= results.drop_last());
    } else {
        lemma_remove_one(results.drop_last(), k);
        assert(results.remove(k).drop_last() =~= results.drop_last().remove(k));
        assert(results.remove(k).last() == results.last());
    }
}

/// A chart that fails stops nothing: the batch still counts every chart,
/// the failed one reports no features, and the features and other failures
/// are those of the batch without it.
pub proof fn lemma_failure_isolation(results: Seq<ChartResult>, k: int)
    requires
        0 <= k < results.len(),
        results[k] == ChartResult::Failed,
    ensures
        result_features(results[k]) == 0,
        features_of(results) == features_of(results.remove(k)),
        failures_of(results) == failures_of(results.remove(k)) + 1,
        results.remove(k).len() == results.len() - 1,
{
    lemma_remove_one(results, k);
}

} // verus!
