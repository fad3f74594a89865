//! The history of one benchmark: taking it in, adding a run, removing runs,
//! and listing what it holds.

use vstd::prelude::*;
use crate::text::{leading, leading_chars};
use crate::types::{
    BenchError, BenchErrorView, BenchResultView, BenchRunResult, BenchRunResultView, HistoryView,
    IndividualBenchInfo, RunId, RunView,
};

verus! {

/// How many characters of a source hash a listing shows.
pub const SHORT_HASH_LEN: usize = 8;

/// What taking in a stored history gives: the history as it was found, unless
/// nothing was found or what was found is corrupt.
pub open spec fn loaded(found: Option<HistoryView>) -> Result<HistoryView, BenchErrorView> {
    match found {
        None => Err(BenchErrorView::NotFound),
        Some(h) => if h.consistent() {
            Ok(h)
        } else {
            Err(BenchErrorView::CorruptState)
        },
    }
}

/// The run that is recorded from what an executable reported, a comment and
/// a source hash. Of the report only the measurements are kept.
pub open spec fn recorded_run(
    report: BenchRunResultView,
    desc: Seq<char>,
    source_hash: Seq<char>,
) -> RunView {
    RunView { measurements: report.benchmarks, commentary: desc, source_hash }
}

/// What adding a run gives: the history with the run at its end, unless the
/// history is corrupt.
pub open spec fn appended(h: HistoryView, run: RunView) -> Result<HistoryView, BenchErrorView> {
    if h.consistent() {
        Ok(h.with_run(run))
    } else {
        Err(BenchErrorView::CorruptState)
    }
}

/// What removing runs gives: the history without the run that is named, or
/// without any run where all are named. Naming all runs always goes through; a
/// single run is taken out of a consistent history only, and must be in it.
pub open spec fn removal(h: HistoryView, run_id: RunId) -> Result<HistoryView, BenchErrorView> {
    match run_id {
        RunId::All => Ok(h.cleared()),
        RunId::Index(i) => if !h.consistent() {
            Err(BenchErrorView::CorruptState)
        } else if i >= h.num_runs() {
            Err(BenchErrorView::OutOfRange(i, h.num_runs() as usize))
        } else {
            Ok(h.without_run(i as int))
        },
    }
}

/// A change to a history: one more run, or the removal of runs.
pub enum Mutation {
    Append(RunView),
    Remove(RunId),
}

/// The history after a change. A change that is refused leaves it as it was.
pub open spec fn apply(h: HistoryView, m: Mutation) -> HistoryView {
    match m {
        Mutation::Append(run) => match appended(h, run) {
            Ok(next) => next,
            Err(_) => h,
        },
        Mutation::Remove(run_id) => match removal(h, run_id) {
            Ok(next) => next,
            Err(_) => h,
        },
    }
}

/// The history after a row of changes, made one after the other.
pub open spec fn apply_all(h: HistoryView, ms: Seq<Mutation>) -> HistoryView
    decreases ms.len(),
{
    if ms.len() == 0 {
        h
    } else {
        apply(apply_all(h, ms.drop_last()), ms.last())
    }
}

impl IndividualBenchInfo {
    /// A history without any run.
    pub fn new() -> (info: IndividualBenchInfo)
        ensures
            info@ == HistoryView::empty(),
    {
        let info = IndividualBenchInfo {
            context: None,
            commentary: Vec::new(),
            benchmarks: Vec::new(),
            source_hashes: Vec::new(),
        };
        assert(info@.commentary =~= Seq::empty());
        assert(info@.benchmarks =~= Seq::empty());
        assert(info@.source_hashes =~= Seq::empty());
        info
    }

    /// Tells whether the three lists have one length.
    pub fn is_consistent(&self) -> (ok: bool)
        ensures
            ok == self@.consistent(),
    {
        self.benchmarks.len() == self.commentary.len() && self.commentary.len()
            == self.source_hashes.len()
    }

    /// The number of runs, counted by their measurements.
    pub fn num_runs(&self) -> (n: usize)
        ensures
            n == self@.num_runs(),
    {
        self.benchmarks.len()
    }
}

/// Takes in what the store holds for a benchmark: `None` where it holds
/// nothing. A consistent history is handed on as it is; a corrupt one is
/// refused, and nothing about it is mended.
pub fn read_individual_config(found: Option<IndividualBenchInfo>) -> (r: Result<
    IndividualBenchInfo,
    BenchError,
>)
    ensures
        match r {
            Ok(info) => found == Some(info) && loaded(found.deep_view()) == Ok::<
                HistoryView,
                BenchErrorView,
            >(info@),
            Err(e) => loaded(found.deep_view()) == Err::<HistoryView, BenchErrorView>(e@),
        },
{
    match found {
        None => Err(BenchError::NotFound),
        Some(info) => {
            if info.is_consistent() {
                Ok(info)
            } else {
                Err(BenchError::CorruptState)
            }
        },
    }
}

/// Records one more run of a benchmark: what the executable reported, the
/// comment on what changed, and the hash of the sources. The three lists grow
/// together, or, on a corrupt history, none does.
pub fn run_individual_benchmark(
    info: &mut IndividualBenchInfo,
    new_benches: BenchRunResult,
    desc: String,
    source_hash: String,
) -> (r: Result<(), BenchError>)
    ensures
        match appended(old(info)@, recorded_run(new_benches@, desc@, source_hash@)) {
            Ok(h) => r is Ok && final(info)@ == h,
            Err(e) => r is Err && r->Err_0@ == e && *final(info) == *old(info),
        },
        final(info)@ == apply(
            old(info)@,
            Mutation::Append(recorded_run(new_benches@, desc@, source_hash@)),
        ),
        old(info)@.consistent() ==> final(info)@.consistent(),
{
    if !info.is_consistent() {
        return Err(BenchError::CorruptState);
    }
    let ghost before = info@;
    let ghost run = recorded_run(new_benches@, desc@, source_hash@);
    info.benchmarks.push(new_benches.benchmarks);
    info.commentary.push(desc);
    info.source_hashes.push(source_hash);
    proof {
        assert(info@.benchmarks =~= before.benchmarks.push(run.measurements));
        assert(info@.commentary =~= before.commentary.push(run.commentary));
        assert(info@.source_hashes =~= before.source_hashes.push(run.source_hash));
    }
    Ok(())
}

/// Removes one run of a benchmark, or all of them. The runs behind a removed
/// one move up and keep their order. Where the run is not there, or the
/// history is corrupt, nothing changes.
pub fn remove_benchmark_run(info: &mut IndividualBenchInfo, run_id: &RunId) -> (r: Result<
    (),
    BenchError,
>)
    ensures
        match removal(old(info)@, *run_id) {
            Ok(h) => r is Ok && final(info)@ == h,
            Err(e) => r is Err && r->Err_0@ == e && *final(info) == *old(info),
        },
        final(info)@ == apply(old(info)@, Mutation::Remove(*run_id)),
        old(info)@.consistent() ==> final(info)@.consistent(),
{
    let ghost before = info@;
    match run_id {
        RunId::All => {
            info.benchmarks.clear();
            info.commentary.clear();
            info.source_hashes.clear();
            proof {
                assert(info@.commentary =~= Seq::empty());
                assert(info@.benchmarks =~= Seq::empty());
                assert(info@.source_hashes =~= Seq::empty());
            }
            Ok(())
        },
        RunId::Index(val) => {
            if !info.is_consistent() {
                return Err(BenchError::CorruptState);
            }
            let runs = info.num_runs();
            if *val >= runs {
                return Err(BenchError::OutOfRange(*val, runs));
            }
            info.benchmarks.remove(*val);
            info.commentary.remove(*val);
            info.source_hashes.remove(*val);
            proof {
                let i = *val as int;
                assert(info@.benchmarks =~= before.benchmarks.remove(i));
                assert(info@.commentary =~= before.commentary.remove(i));
                assert(info@.source_hashes =~= before.source_hashes.remove(i));
            }
            Ok(())
        },
    }
}

/// One line of a listing of recorded runs.
#[derive(Debug, Clone, PartialEq, Eq)]
pub struct RunSummary {
    pub index: usize,
    pub short_hash: String,
    pub commentary: String,
}

/// What a [`RunSummary`] holds.
pub struct RunSummaryView {
    pub index: usize,
    pub short_hash: Seq<char>,
    pub commentary: Seq<char>,
}

impl DeepView for RunSummary {
    type V = RunSummaryView;

    open spec fn deep_view(&self) -> RunSummaryView {
        RunSummaryView {
            index: self.index,
            short_hash: self.short_hash@,
            commentary: self.commentary@,
        }
    }
}

impl View for RunSummary {
    type V = RunSummaryView;

    open spec fn view(&self) -> RunSummaryView {
        self.deep_view()
    }
}

/// The listing line of run number `i`: its index, the beginning of its source
/// hash, and its comment.
pub open spec fn summary_of(h: HistoryView, i: int) -> RunSummaryView {
    RunSummaryView {
        index: i as usize,
        short_hash: leading(h.source_hashes[i], SHORT_HASH_LEN as nat),
        commentary: h.commentary[i],
    }
}

/// The listing of a history: one line for each run, in their order.
pub open spec fn summaries(h: HistoryView) -> Seq<RunSummaryView> {
    Seq::new(h.num_runs(), |i: int| summary_of(h, i))
}

/// Lists the recorded runs of a benchmark, one line for each, for showing them.
/// A corrupt history has no listing.
pub fn print_individual_bench_info(info: &IndividualBenchInfo) -> (r: Result<
    Vec<RunSummary>,
    BenchError,
>)
    ensures
        match r {
            Ok(lines) => info@.consistent() && lines.deep_view() == summaries(info@),
            Err(e) => !info@.consistent() && e@ == BenchErrorView::CorruptState,
        },
{
    if !info.is_consistent() {
        return Err(BenchError::CorruptState);
    }
    let runs = info.num_runs();
    let mut lines: Vec<RunSummary> = Vec::new();
    let mut i: usize = 0;
    while i < runs
        invariant
            i <= runs,
            runs == info@.num_runs(),
            info@.consistent(),
            lines.len() == i,
            forall|k: int| 0 <= k < i ==> (#[trigger] lines@[k]).deep_view() == summary_of(info@, k),
        decreases runs - i,
    {
        let line = RunSummary {
            index: i,
            short_hash: leading_chars(info.source_hashes[i].as_str(), SHORT_HASH_LEN),
            commentary: info.commentary[i].clone(),
        };
        lines.push(line);
        i = i + 1;
    }
    Ok(lines)
}

/// The points that show one run: each measurement's place in the run, with
/// its wall-clock time as the bit pattern of a double.
pub open spec fn plot_of(run: Seq<BenchResultView>) -> Seq<(usize, u64)> {
    Seq::new(run.len(), |k: int| (k as usize, run[k].real_time))
}

/// What asking for the points of run number `run` gives.
pub open spec fn plotted(h: HistoryView, run: usize) -> Result<Seq<(usize, u64)>, BenchErrorView> {
    if !h.consistent() {
        Err(BenchErrorView::CorruptState)
    } else if run >= h.num_runs() {
        Err(BenchErrorView::OutOfRange(run, h.num_runs() as usize))
    } else {
        Ok(plot_of(h.benchmarks[run as int]))
    }
}

/// Lays out one run for plotting: a point for each of its measurements, in
/// their order.
pub fn plot_points(info: &IndividualBenchInfo, run: usize) -> (r: Result<
    Vec<(usize, u64)>,
    BenchError,
>)
    ensures
        match r {
            Ok(points) => plotted(info@, run) == Ok::<Seq<(usize, u64)>, BenchErrorView>(points@),
            Err(e) => plotted(info@, run) == Err::<Seq<(usize, u64)>, BenchErrorView>(e@),
        },
{
    if !info.is_consistent() {
        return Err(BenchError::CorruptState);
    }
    let runs = info.num_runs();
    if run >= runs {
        return Err(BenchError::OutOfRange(run, runs));
    }
    let measurements = &info.benchmarks[run];
    let ghost shown = info@.benchmarks[run as int];
    let mut points: Vec<(usize, u64)> = Vec::new();
    let mut k: usize = 0;
    while k < measurements.len()
        invariant
            k <= measurements.len(),
            measurements.deep_view() == shown,
            points.len() == k,
            forall|m: int| 0 <= m < k ==> #[trigger] points@[m] == (m as usize, shown[m].real_time),
        decreases measurements.len() - k,
    {
        points.push((k, measurements[k].real_time));
        k = k + 1;
    }
    assert(points@ =~= plot_of(shown));
    Ok(points)
}

/// A consistent history that the store hands back as it was put there is
/// taken in as it is.
pub proof fn lemma_consistent_history_loads_unchanged(h: HistoryView)
    requires
        h.consistent(),
    ensures
        loaded(Some(h)) == Ok::<HistoryView, BenchErrorView>(h),
{
}

/// No change breaks a consistent history: whether it goes through or is
/// refused, the three lists have one length afterwards.
pub proof fn lemma_change_keeps_consistency(h: HistoryView, m: Mutation)
    requires
        h.consistent(),
    ensures
        apply(h, m).consistent(),
{
}

/// A consistent history is consistent after each of any row of additions and
/// removals.
pub proof fn lemma_changes_keep_consistency(h: HistoryView, ms: Seq<Mutation>)
    requires
        h.consistent(),
    ensures
        forall|k: int| 0 <= k <= ms.len() ==> (#[trigger] apply_all(h, ms.take(k))).consistent(),
    decreases ms.len(),
{
    assert forall|k: int| 0 <= k <= ms.len() implies (#[trigger] apply_all(
        h,
        ms.take(k),
    )).consistent() by {
        if k == ms.len() {
            assert(ms.take(k) =~= ms);
            if ms.len() > 0 {
                lemma_changes_keep_consistency(h, ms.drop_last());
                assert(ms.drop_last().take(ms.len() - 1) =~= ms.drop_last());
                lemma_change_keeps_consistency(apply_all(h, ms.drop_last()), ms.last());
            }
        } else {
            lemma_changes_keep_consistency(h, ms.drop_last());
            assert(ms.drop_last().take(k) =~= ms.take(k));
        }
    }
}

/// Removing run number `k` leaves one run fewer: the runs before it stay where
/// they are, and each run behind it moves up by one, so that what was run
/// number `k + 1` is run number `k`.
pub proof fn lemma_removal_keeps_order(h: HistoryView, k: int)
    requires
        h.consistent(),
        0 <= k < h.num_runs(),
    ensures
        h.without_run(k).consistent(),
        h.without_run(k).num_runs() == h.num_runs() - 1,
        forall|j: int| 0 <= j < k ==> #[trigger] h.without_run(k).run(j) == h.run(j),
        forall|j: int|
            k <= j < h.num_runs() - 1 ==> #[trigger] h.without_run(k).run(j) == h.run(j + 1),
{
}

} // verus!
