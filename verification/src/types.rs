//! The records that are kept: what a benchmark executable reports, the header
//! of a benchmark, and the history of its runs, each with its mathematical view.

use vstd::prelude::*;

verus! {

/// One measurement that a benchmark executable reports.
///
/// The two times are kept as the bit patterns of IEEE 754 doubles (what
/// `f64::to_bits` gives), so that a record is copied and compared exactly.
#[derive(Debug, Clone, PartialEq, Eq)]
pub struct BenchResult {
    pub name: String,
    pub iterations: i64,
    pub real_time: u64,
    pub cpu_time: u64,
    pub time_unit: String,
}

/// What a [`BenchResult`] holds.
pub struct BenchResultView {
    pub name: Seq<char>,
    pub iterations: i64,
    pub real_time: u64,
    pub cpu_time: u64,
    pub time_unit: Seq<char>,
}

impl DeepView for BenchResult {
    type V = BenchResultView;

    open spec fn deep_view(&self) -> BenchResultView {
        BenchResultView {
            name: self.name@,
            iterations: self.iterations,
            real_time: self.real_time,
            cpu_time: self.cpu_time,
            time_unit: self.time_unit@,
        }
    }
}

impl View for BenchResult {
    type V = BenchResultView;

    open spec fn view(&self) -> BenchResultView {
        self.deep_view()
    }
}

/// One level of the processor's cache, as the executable reports it.
#[derive(Debug, Clone, PartialEq, Eq)]
pub struct CpuCacheInfo {
    pub level: i64,
    pub size: i64,
    pub num_sharing: i64,
}

/// What a [`CpuCacheInfo`] holds.
pub struct CpuCacheInfoView {
    pub level: i64,
    pub size: i64,
    pub num_sharing: i64,
}

impl DeepView for CpuCacheInfo {
    type V = CpuCacheInfoView;

    open spec fn deep_view(&self) -> CpuCacheInfoView {
        CpuCacheInfoView { level: self.level, size: self.size, num_sharing: self.num_sharing }
    }
}

impl View for CpuCacheInfo {
    type V = CpuCacheInfoView;

    open spec fn view(&self) -> CpuCacheInfoView {
        self.deep_view()
    }
}

/// The machine on which a benchmark executable ran.
#[derive(Debug, Clone, PartialEq, Eq)]
pub struct EnvironmentInfo {
    pub date: String,
    pub executable: String,
    pub num_cpus: i64,
    pub mhz_per_cpu: i64,
    pub cpu_scaling_enabled: bool,
    pub caches: Vec<CpuCacheInfo>,
    pub library_build_type: String,
}

/// What an [`EnvironmentInfo`] holds.
pub struct EnvironmentInfoView {
    pub date: Seq<char>,
    pub executable: Seq<char>,
    pub num_cpus: i64,
    pub mhz_per_cpu: i64,
    pub cpu_scaling_enabled: bool,
    pub caches: Seq<CpuCacheInfoView>,
    pub library_build_type: Seq<char>,
}

impl DeepView for EnvironmentInfo {
    type V = EnvironmentInfoView;

    open spec fn deep_view(&self) -> EnvironmentInfoView {
        EnvironmentInfoView {
            date: self.date@,
            executable: self.executable@,
            num_cpus: self.num_cpus,
            mhz_per_cpu: self.mhz_per_cpu,
            cpu_scaling_enabled: self.cpu_scaling_enabled,
            caches: self.caches.deep_view(),
            library_build_type: self.library_build_type@,
        }
    }
}

impl View for EnvironmentInfo {
    type V = EnvironmentInfoView;

    open spec fn view(&self) -> EnvironmentInfoView {
        self.deep_view()
    }
}

/// Everything that one execution of a benchmark executable reports.
#[derive(Debug, Clone, PartialEq, Eq)]
pub struct BenchRunResult {
    pub context: Option<EnvironmentInfo>,
    pub benchmarks: Vec<BenchResult>,
}

/// What a [`BenchRunResult`] holds.
pub struct BenchRunResultView {
    pub context: Option<EnvironmentInfoView>,
    pub benchmarks: Seq<BenchResultView>,
}

impl DeepView for BenchRunResult {
    type V = BenchRunResultView;

    open spec fn deep_view(&self) -> BenchRunResultView {
        BenchRunResultView {
            context: self.context.deep_view(),
            benchmarks: self.benchmarks.deep_view(),
        }
    }
}

impl View for BenchRunResult {
    type V = BenchRunResultView;

    open spec fn view(&self) -> BenchRunResultView {
        self.deep_view()
    }
}

/// Where a benchmark lives and what it is for.
#[derive(Debug, Clone, PartialEq, Eq)]
pub struct BenchHeader {
    pub source_root: String,
    pub source_bin: String,
    pub description: String,
}

/// What a [`BenchHeader`] holds.
pub struct BenchHeaderView {
    pub source_root: Seq<char>,
    pub source_bin: Seq<char>,
    pub description: Seq<char>,
}

impl DeepView for BenchHeader {
    type V = BenchHeaderView;

    open spec fn deep_view(&self) -> BenchHeaderView {
        BenchHeaderView {
            source_root: self.source_root@,
            source_bin: self.source_bin@,
            description: self.description@,
        }
    }
}

impl View for BenchHeader {
    type V = BenchHeaderView;

    open spec fn view(&self) -> BenchHeaderView {
        self.deep_view()
    }
}

/// The name under which a benchmark is known.
pub type BenchId = String;

/// The history of one benchmark: for each recorded run its measurements, the
/// comment given with it and the hash of the sources it was built from, in
/// three lists that run side by side. Run number `i` is what the three lists
/// hold at index `i`.
///
/// The fields are open, as the stored form is, so the three lists may differ
/// in length: such a history is corrupt, and every operation tells.
#[derive(Debug, Clone, PartialEq, Eq)]
pub struct IndividualBenchInfo {
    pub context: Option<EnvironmentInfo>,
    pub commentary: Vec<String>,
    pub benchmarks: Vec<Vec<BenchResult>>,
    pub source_hashes: Vec<String>,
}

/// One recorded run, as a history's view holds it.
pub struct RunView {
    pub measurements: Seq<BenchResultView>,
    pub commentary: Seq<char>,
    pub source_hash: Seq<char>,
}

/// What an [`IndividualBenchInfo`] holds.
pub struct HistoryView {
    pub context: Option<EnvironmentInfoView>,
    pub commentary: Seq<Seq<char>>,
    pub benchmarks: Seq<Seq<BenchResultView>>,
    pub source_hashes: Seq<Seq<char>>,
}

impl HistoryView {
    /// The history of a benchmark that has not run yet.
    pub open spec fn empty() -> HistoryView {
        HistoryView {
            context: None,
            commentary: Seq::empty(),
            benchmarks: Seq::empty(),
            source_hashes: Seq::empty(),
        }
    }

    /// The three lists have one length.
    pub open spec fn consistent(self) -> bool {
        self.benchmarks.len() == self.commentary.len() && self.commentary.len()
            == self.source_hashes.len()
    }

    /// The number of recorded runs of a consistent history.
    pub open spec fn num_runs(self) -> nat {
        self.benchmarks.len()
    }

    /// Run number `i` of a consistent history.
    pub open spec fn run(self, i: int) -> RunView
        recommends
            self.consistent(),
            0 <= i < self.num_runs(),
    {
        RunView {
            measurements: self.benchmarks[i],
            commentary: self.commentary[i],
            source_hash: self.source_hashes[i],
        }
    }

    /// The history with one more run at its end.
    pub open spec fn with_run(self, run: RunView) -> HistoryView {
        HistoryView {
            context: self.context,
            commentary: self.commentary.push(run.commentary),
            benchmarks: self.benchmarks.push(run.measurements),
            source_hashes: self.source_hashes.push(run.source_hash),
        }
    }

    /// The history without run number `i`; the runs behind it move up by one.
    pub open spec fn without_run(self, i: int) -> HistoryView
        recommends
            self.consistent(),
            0 <= i < self.num_runs(),
    {
        HistoryView {
            context: self.context,
            commentary: self.commentary.remove(i),
            benchmarks: self.benchmarks.remove(i),
            source_hashes: self.source_hashes.remove(i),
        }
    }

    /// The history without any run.
    pub open spec fn cleared(self) -> HistoryView {
        HistoryView {
            context: self.context,
            commentary: Seq::empty(),
            benchmarks: Seq::empty(),
            source_hashes: Seq::empty(),
        }
    }
}

impl DeepView for IndividualBenchInfo {
    type V = HistoryView;

    open spec fn deep_view(&self) -> HistoryView {
        HistoryView {
            context: self.context.deep_view(),
            commentary: self.commentary.deep_view(),
            benchmarks: self.benchmarks.deep_view(),
            source_hashes: self.source_hashes.deep_view(),
        }
    }
}

impl View for IndividualBenchInfo {
    type V = HistoryView;

    open spec fn view(&self) -> HistoryView {
        self.deep_view()
    }
}

/// A reference to the runs of a history: one of them, by its index, or all.
#[derive(Debug, Clone, Copy, PartialEq, Eq, Structural)]
pub enum RunId {
    Index(usize),
    All,
}

/// Why an operation on the records did not go through.
#[derive(Debug, Clone, PartialEq, Eq)]
pub enum BenchError {
    /// Nothing is recorded under the name.
    NotFound,
    /// A benchmark of that name is registered already.
    AlreadyExists,
    /// The three lists of a history differ in length.
    CorruptState,
    /// The text is neither `*` nor an index.
    Unparseable(String),
    /// The index, and the number of runs that it should be below.
    OutOfRange(usize, usize),
    /// The history holds no run at all.
    NoRunsRecorded,
    /// All runs were named where one run is needed.
    NotOneRun,
    /// Of the name of a benchmark and a run identifier only one was given.
    MissingArgument,
}

/// What a [`BenchError`] holds.
pub enum BenchErrorView {
    NotFound,
    AlreadyExists,
    CorruptState,
    Unparseable(Seq<char>),
    OutOfRange(usize, usize),
    NoRunsRecorded,
    NotOneRun,
    MissingArgument,
}

impl DeepView for BenchError {
    type V = BenchErrorView;

    open spec fn deep_view(&self) -> BenchErrorView {
        match self {
            BenchError::NotFound => BenchErrorView::NotFound,
            BenchError::AlreadyExists => BenchErrorView::AlreadyExists,
            BenchError::CorruptState => BenchErrorView::CorruptState,
            BenchError::Unparseable(text) => BenchErrorView::Unparseable(text@),
            BenchError::OutOfRange(index, runs) => BenchErrorView::OutOfRange(*index, *runs),
            BenchError::NoRunsRecorded => BenchErrorView::NoRunsRecorded,
            BenchError::NotOneRun => BenchErrorView::NotOneRun,
            BenchError::MissingArgument => BenchErrorView::MissingArgument,
        }
    }
}

impl View for BenchError {
    type V = BenchErrorView;

    open spec fn view(&self) -> BenchErrorView {
        self.deep_view()
    }
}

} // verus!
