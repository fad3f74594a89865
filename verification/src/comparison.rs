//! Setting two recorded runs of a benchmark side by side.
//!
//! The measurements of the two runs are paired by their position, not by their
//! names: the first of one run with the first of the other, and so on, as far
//! as both runs reach. What the longer run holds beyond that is counted, not
//! paired. Each pair carries the two times and the direction from the first to
//! the second; the numbers that are computed from the two times (difference,
//! percentage, ratio) are left to the caller.

use vstd::prelude::*;
use crate::timing::{direction, lemma_direction_reversed, spec_direction, Direction};
use crate::types::{
    BenchError, BenchErrorView, BenchResultView, HistoryView, IndividualBenchInfo, RunId,
};

verus! {

/// One pair of measurements: the name of the first, the time of each as the
/// bit pattern of a double, and the direction from the first to the second.
#[derive(Debug, Clone, PartialEq, Eq)]
pub struct ComparisonRow {
    pub name: String,
    pub lhs_time: u64,
    pub rhs_time: u64,
    pub direction: Direction,
}

/// What a [`ComparisonRow`] holds.
pub struct ComparisonRowView {
    pub name: Seq<char>,
    pub lhs_time: u64,
    pub rhs_time: u64,
    pub direction: Direction,
}

impl DeepView for ComparisonRow {
    type V = ComparisonRowView;

    open spec fn deep_view(&self) -> ComparisonRowView {
        ComparisonRowView {
            name: self.name@,
            lhs_time: self.lhs_time,
            rhs_time: self.rhs_time,
            direction: self.direction,
        }
    }
}

impl View for ComparisonRow {
    type V = ComparisonRowView;

    open spec fn view(&self) -> ComparisonRowView {
        self.deep_view()
    }
}

/// Two runs side by side: the pairs in their order, the number of measurements
/// of the longer run that found no partner, and the source hash of each run,
/// between which the sources can be compared.
#[derive(Debug, Clone, PartialEq, Eq)]
pub struct Comparison {
    pub rows: Vec<ComparisonRow>,
    pub skipped: usize,
    pub lhs_hash: String,
    pub rhs_hash: String,
}

/// What a [`Comparison`] holds.
pub struct ComparisonView {
    pub rows: Seq<ComparisonRowView>,
    pub skipped: nat,
    pub lhs_hash: Seq<char>,
    pub rhs_hash: Seq<char>,
}

impl DeepView for Comparison {
    type V = ComparisonView;

    open spec fn deep_view(&self) -> ComparisonView {
        ComparisonView {
            rows: self.rows.deep_view(),
            skipped: self.skipped as nat,
            lhs_hash: self.lhs_hash@,
            rhs_hash: self.rhs_hash@,
        }
    }
}

impl View for Comparison {
    type V = ComparisonView;

    open spec fn view(&self) -> ComparisonView {
        self.deep_view()
    }
}

/// The pair that two measurements make.
pub open spec fn paired_row(lhs: BenchResultView, rhs: BenchResultView) -> ComparisonRowView {
    ComparisonRowView {
        name: lhs.name,
        lhs_time: lhs.real_time,
        rhs_time: rhs.real_time,
        direction: spec_direction(lhs.real_time, rhs.real_time),
    }
}

/// Two lists of measurements paired by position, as far as both reach.
pub open spec fn paired_rows(lhs: Seq<BenchResultView>, rhs: Seq<BenchResultView>) -> Seq<
    ComparisonRowView,
> {
    let overlap = if lhs.len() <= rhs.len() {
        lhs.len()
    } else {
        rhs.len()
    };
    Seq::new(overlap, |k: int| paired_row(lhs[k], rhs[k]))
}

/// How many measurements the longer of two lists holds beyond the shorter.
pub open spec fn unpaired(lhs: Seq<BenchResultView>, rhs: Seq<BenchResultView>) -> nat {
    if lhs.len() <= rhs.len() {
        (rhs.len() - lhs.len()) as nat
    } else {
        (lhs.len() - rhs.len()) as nat
    }
}

/// Runs `i` and `j` of a history side by side.
pub open spec fn paired(h: HistoryView, i: int, j: int) -> ComparisonView
    recommends
        h.consistent(),
        0 <= i < h.num_runs(),
        0 <= j < h.num_runs(),
{
    ComparisonView {
        rows: paired_rows(h.benchmarks[i], h.benchmarks[j]),
        skipped: unpaired(h.benchmarks[i], h.benchmarks[j]),
        lhs_hash: h.source_hashes[i],
        rhs_hash: h.source_hashes[j],
    }
}

/// What comparing runs `i` and `j` gives. The history must be consistent and
/// hold a run; the first index is looked at before the second.
pub open spec fn comparison(h: HistoryView, i: usize, j: usize) -> Result<
    ComparisonView,
    BenchErrorView,
> {
    if !h.consistent() {
        Err(BenchErrorView::CorruptState)
    } else if h.num_runs() == 0 {
        Err(BenchErrorView::NoRunsRecorded)
    } else if i >= h.num_runs() {
        Err(BenchErrorView::OutOfRange(i, h.num_runs() as usize))
    } else if j >= h.num_runs() {
        Err(BenchErrorView::OutOfRange(j, h.num_runs() as usize))
    } else {
        Ok(paired(h, i as int, j as int))
    }
}

/// What comparing the runs that two identifiers name gives: each must name
/// one run.
pub open spec fn selected_comparison(h: HistoryView, lhs: RunId, rhs: RunId) -> Result<
    ComparisonView,
    BenchErrorView,
> {
    match (lhs, rhs) {
        (RunId::Index(i), RunId::Index(j)) => comparison(h, i, j),
        _ => Err(BenchErrorView::NotOneRun),
    }
}

/// Sets runs `i` and `j` of a history side by side. The indices are checked
/// here again, whoever checked them before.
pub fn compare(info: &IndividualBenchInfo, i: usize, j: usize) -> (r: Result<
    Comparison,
    BenchError,
>)
    ensures
        match r {
            Ok(c) => comparison(info@, i, j) == Ok::<ComparisonView, BenchErrorView>(c@),
            Err(e) => comparison(info@, i, j) == Err::<ComparisonView, BenchErrorView>(e@),
        },
{
    if !info.is_consistent() {
        return Err(BenchError::CorruptState);
    }
    let num_runs = info.num_runs();
    if num_runs == 0 {
        return Err(BenchError::NoRunsRecorded);
    }
    if i >= num_runs {
        return Err(BenchError::OutOfRange(i, num_runs));
    }
    if j >= num_runs {
        return Err(BenchError::OutOfRange(j, num_runs));
    }
    let lhs_run = &info.benchmarks[i];
    let rhs_run = &info.benchmarks[j];
    let ghost lhs_view = info@.benchmarks[i as int];
    let ghost rhs_view = info@.benchmarks[j as int];
    let (overlap, skipped) = if lhs_run.len() <= rhs_run.len() {
        (lhs_run.len(), rhs_run.len() - lhs_run.len())
    } else {
        (rhs_run.len(), lhs_run.len() - rhs_run.len())
    };
    let mut rows: Vec<ComparisonRow> = Vec::new();
    let mut k: usize = 0;
    while k < overlap
        invariant
            k <= overlap,
            overlap <= lhs_run.len(),
            overlap <= rhs_run.len(),
            lhs_run.deep_view() == lhs_view,
            rhs_run.deep_view() == rhs_view,
            rows.len() == k,
            forall|m: int|
                0 <= m < k ==> (#[trigger] rows@[m]).deep_view() == paired_row(
                    lhs_view[m],
                    rhs_view[m],
                ),
        decreases overlap - k,
    {
        let lhs = &lhs_run[k];
        let rhs = &rhs_run[k];
        rows.push(
            ComparisonRow {
                name: lhs.name.clone(),
                lhs_time: lhs.real_time,
                rhs_time: rhs.real_time,
                direction: direction(lhs.real_time, rhs.real_time),
            },
        );
        k = k + 1;
    }
    let c = Comparison {
        rows,
        skipped,
        lhs_hash: info.source_hashes[i].clone(),
        rhs_hash: info.source_hashes[j].clone(),
    };
    assert(c@.rows =~= paired_rows(lhs_view, rhs_view));
    Ok(c)
}

/// Sets the two runs that the identifiers name side by side, for printing.
/// An identifier that names all runs names no pair: nothing is compared then.
pub fn print_comparison(info: &IndividualBenchInfo, run_id_1: &RunId, run_id_2: &RunId) -> (r:
    Result<Comparison, BenchError>)
    ensures
        match r {
            Ok(c) => selected_comparison(info@, *run_id_1, *run_id_2) == Ok::<
                ComparisonView,
                BenchErrorView,
            >(c@),
            Err(e) => selected_comparison(info@, *run_id_1, *run_id_2) == Err::<
                ComparisonView,
                BenchErrorView,
            >(e@),
        },
{
    match (run_id_1, run_id_2) {
        (RunId::Index(i), RunId::Index(j)) => compare(info, *i, *j),
        _ => Err(BenchError::NotOneRun),
    }
}

/// Comparing two runs the other way round gives the same pairs seen from the
/// other side: in every pair the two times change places and the direction is
/// reversed, as many measurements are left unpaired, and the two source hashes
/// change places. The name of a pair is that of its first measurement, so it
/// is taken from the other run.
pub proof fn lemma_comparison_swapped(h: HistoryView, i: usize, j: usize)
    requires
        comparison(h, i, j) is Ok,
    ensures
        comparison(h, j, i) is Ok,
        ({
            let there = comparison(h, i, j)->Ok_0;
            let back = comparison(h, j, i)->Ok_0;
            &&& back.rows.len() == there.rows.len()
            &&& back.skipped == there.skipped
            &&& back.lhs_hash == there.rhs_hash
            &&& back.rhs_hash == there.lhs_hash
            &&& forall|k: int|
                0 <= k < there.rows.len() ==> {
                    &&& (#[trigger] back.rows[k]).lhs_time == there.rows[k].rhs_time
                    &&& back.rows[k].rhs_time == there.rows[k].lhs_time
                    &&& back.rows[k].direction == there.rows[k].direction.reversed()
                    &&& back.rows[k].name == h.benchmarks[j as int][k].name
                }
        }),
{
    let there = comparison(h, i, j)->Ok_0;
    let back = comparison(h, j, i)->Ok_0;
    assert forall|k: int| 0 <= k < there.rows.len() implies {
        &&& (#[trigger] back.rows[k]).lhs_time == there.rows[k].rhs_time
        &&& back.rows[k].rhs_time == there.rows[k].lhs_time
        &&& back.rows[k].direction == there.rows[k].direction.reversed()
        &&& back.rows[k].name == h.benchmarks[j as int][k].name
    } by {
        lemma_direction_reversed(there.rows[k].lhs_time, there.rows[k].rhs_time);
    }
}

} // verus!
