use benchviz::history::{
    print_individual_bench_info, read_individual_config, remove_benchmark_run,
    run_individual_benchmark, RunSummary,
};
use benchviz::types::{BenchError, BenchResult, BenchRunResult, IndividualBenchInfo, RunId};

fn measurement(name: &str, real_time: f64) -> BenchResult {
    BenchResult {
        name: name.to_string(),
        iterations: 1000,
        real_time: real_time.to_bits(),
        cpu_time: (real_time / 2.0).to_bits(),
        time_unit: "ns".to_string(),
    }
}

fn report(times: &[f64]) -> BenchRunResult {
    BenchRunResult {
        context: None,
        benchmarks: times.iter().map(|t| measurement("BM_case", *t)).collect(),
    }
}

fn three_runs() -> IndividualBenchInfo {
    let mut info = IndividualBenchInfo::new();
    for (i, time) in [10.0, 20.0, 30.0].iter().enumerate() {
        let done = run_individual_benchmark(
            &mut info,
            report(&[*time]),
            format!("comment {}", i),
            format!("{:040x}", i + 1),
        );
        assert_eq!(done, Ok(()));
    }
    info
}

#[test]
fn new_history_is_empty_and_consistent() {
    let info = IndividualBenchInfo::new();
    assert!(info.is_consistent());
    assert_eq!(info.num_runs(), 0);
    assert!(info.context.is_none());
    assert!(info.benchmarks.is_empty());
    assert!(info.commentary.is_empty());
    assert!(info.source_hashes.is_empty());
}

#[test]
fn adding_a_run_extends_the_three_lists() {
    let mut info = IndividualBenchInfo::new();
    let done = run_individual_benchmark(
        &mut info,
        report(&[1.5, 2.5]),
        "first".to_string(),
        "abc123".to_string(),
    );
    assert_eq!(done, Ok(()));
    assert_eq!(info.num_runs(), 1);
    assert_eq!(info.benchmarks, vec![vec![measurement("BM_case", 1.5), measurement("BM_case", 2.5)]]);
    assert_eq!(info.commentary, vec!["first".to_string()]);
    assert_eq!(info.source_hashes, vec!["abc123".to_string()]);

    let done = run_individual_benchmark(
        &mut info,
        report(&[]),
        "second".to_string(),
        String::new(),
    );
    assert_eq!(done, Ok(()));
    assert_eq!(info.num_runs(), 2);
    assert_eq!(info.benchmarks[1], Vec::new());
    assert_eq!(info.commentary, vec!["first".to_string(), "second".to_string()]);
    assert_eq!(info.source_hashes, vec!["abc123".to_string(), String::new()]);
    assert!(info.is_consistent());
}

#[test]
fn adding_a_run_keeps_the_context_of_the_history() {
    let mut info = IndividualBenchInfo::new();
    let mut run = report(&[1.0]);
    run.context = Some(benchviz::types::EnvironmentInfo {
        date: "2019-01-01".to_string(),
        executable: "./bench".to_string(),
        num_cpus: 8,
        mhz_per_cpu: 2400,
        cpu_scaling_enabled: false,
        caches: vec![benchviz::types::CpuCacheInfo { level: 1, size: 32768, num_sharing: 2 }],
        library_build_type: "release".to_string(),
    });
    assert_eq!(run_individual_benchmark(&mut info, run, "c".to_string(), "h".to_string()), Ok(()));
    assert!(info.context.is_none());
}

#[test]
fn adding_a_run_to_a_corrupt_history_changes_nothing() {
    let mut info = three_runs();
    info.commentary.push("stray".to_string());
    let before = info.clone();
    let done = run_individual_benchmark(&mut info, report(&[1.0]), "c".to_string(), "h".to_string());
    assert_eq!(done, Err(BenchError::CorruptState));
    assert_eq!(info, before);
}

#[test]
fn removing_all_runs_clears_the_three_lists() {
    let mut info = three_runs();
    assert_eq!(remove_benchmark_run(&mut info, &RunId::All), Ok(()));
    assert!(info.benchmarks.is_empty());
    assert!(info.commentary.is_empty());
    assert!(info.source_hashes.is_empty());
    assert!(info.is_consistent());
}

#[test]
fn removing_all_runs_clears_a_corrupt_history_too() {
    let mut info = three_runs();
    info.source_hashes.pop();
    assert_eq!(remove_benchmark_run(&mut info, &RunId::All), Ok(()));
    assert_eq!(info, IndividualBenchInfo::new());
}

#[test]
fn removing_a_run_moves_the_later_runs_up() {
    let all = three_runs();
    let mut info = all.clone();
    assert_eq!(remove_benchmark_run(&mut info, &RunId::Index(1)), Ok(()));
    assert_eq!(info.num_runs(), 2);
    assert_eq!(info.benchmarks, vec![all.benchmarks[0].clone(), all.benchmarks[2].clone()]);
    assert_eq!(info.commentary, vec!["comment 0".to_string(), "comment 2".to_string()]);
    assert_eq!(info.source_hashes, vec![all.source_hashes[0].clone(), all.source_hashes[2].clone()]);

    let mut info = all.clone();
    assert_eq!(remove_benchmark_run(&mut info, &RunId::Index(0)), Ok(()));
    assert_eq!(info.commentary, vec!["comment 1".to_string(), "comment 2".to_string()]);
    assert_eq!(info.benchmarks[0], all.benchmarks[1]);
    assert_eq!(info.source_hashes[1], all.source_hashes[2]);

    let mut info = all.clone();
    assert_eq!(remove_benchmark_run(&mut info, &RunId::Index(2)), Ok(()));
    assert_eq!(info.commentary, vec!["comment 0".to_string(), "comment 1".to_string()]);
    assert_eq!(info.benchmarks, all.benchmarks[..2].to_vec());
}

#[test]
fn removing_a_run_that_is_not_there_changes_nothing() {
    let mut info = three_runs();
    let before = info.clone();
    assert_eq!(remove_benchmark_run(&mut info, &RunId::Index(3)), Err(BenchError::OutOfRange(3, 3)));
    assert_eq!(info, before);
    assert_eq!(
        remove_benchmark_run(&mut info, &RunId::Index(usize::MAX)),
        Err(BenchError::OutOfRange(usize::MAX, 3))
    );
    assert_eq!(info, before);

    let mut empty = IndividualBenchInfo::new();
    assert_eq!(remove_benchmark_run(&mut empty, &RunId::Index(0)), Err(BenchError::OutOfRange(0, 0)));
    assert_eq!(empty, IndividualBenchInfo::new());
}

#[test]
fn removing_a_run_from_a_corrupt_history_changes_nothing() {
    let mut info = three_runs();
    info.benchmarks.pop();
    let before = info.clone();
    assert_eq!(remove_benchmark_run(&mut info, &RunId::Index(0)), Err(BenchError::CorruptState));
    assert_eq!(info, before);
}

#[test]
fn additions_and_removals_keep_the_lists_in_step() {
    let mut info = IndividualBenchInfo::new();
    let mut expected: Vec<String> = Vec::new();
    for step in 0..40usize {
        if step % 3 == 2 {
            let at = (step * 7) % (expected.len() + 1);
            let done = remove_benchmark_run(&mut info, &RunId::Index(at));
            if at < expected.len() {
                assert_eq!(done, Ok(()));
                expected.remove(at);
            } else {
                assert_eq!(done, Err(BenchError::OutOfRange(at, expected.len())));
            }
        } else if step == 25 {
            assert_eq!(remove_benchmark_run(&mut info, &RunId::All), Ok(()));
            expected.clear();
        } else {
            let comment = format!("step {}", step);
            let done = run_individual_benchmark(
                &mut info,
                report(&[step as f64]),
                comment.clone(),
                format!("{:08x}", step),
            );
            assert_eq!(done, Ok(()));
            expected.push(comment);
        }
        assert!(info.is_consistent());
        assert_eq!(info.benchmarks.len(), info.commentary.len());
        assert_eq!(info.commentary.len(), info.source_hashes.len());
        assert_eq!(info.commentary, expected);
    }
}

#[test]
fn nothing_stored_is_not_found() {
    assert_eq!(read_individual_config(None), Err(BenchError::NotFound));
}

#[test]
fn stored_history_with_lists_out_of_step_is_corrupt() {
    let info = IndividualBenchInfo {
        context: None,
        commentary: vec!["a".to_string(), "b".to_string(), "c".to_string()],
        benchmarks: vec![vec![measurement("BM_case", 1.0)], vec![measurement("BM_case", 2.0)]],
        source_hashes: vec!["h1".to_string(), "h2".to_string()],
    };
    assert_eq!(read_individual_config(Some(info)), Err(BenchError::CorruptState));

    let mut info = three_runs();
    info.source_hashes.push("stray".to_string());
    assert_eq!(read_individual_config(Some(info)), Err(BenchError::CorruptState));
}

#[test]
fn stored_consistent_history_is_handed_on_unchanged() {
    let info = three_runs();
    assert_eq!(read_individual_config(Some(info.clone())), Ok(info));
    assert_eq!(
        read_individual_config(Some(IndividualBenchInfo::new())),
        Ok(IndividualBenchInfo::new())
    );
}

#[test]
fn listing_shows_index_short_hash_and_comment() {
    let mut info = IndividualBenchInfo::new();
    let hashes = ["0123456789abcdef0123456789abcdef01234567", "abc", "", "12345678", "ääöö5678ü"];
    for (i, hash) in hashes.iter().enumerate() {
        let done = run_individual_benchmark(
            &mut info,
            report(&[1.0]),
            format!("comment {}", i),
            hash.to_string(),
        );
        assert_eq!(done, Ok(()));
    }
    let lines = print_individual_bench_info(&info).unwrap();
    let shorts = ["01234567", "abc", "", "12345678", "ääöö5678"];
    assert_eq!(lines.len(), 5);
    for (i, line) in lines.iter().enumerate() {
        assert_eq!(
            *line,
            RunSummary {
                index: i,
                short_hash: shorts[i].to_string(),
                commentary: format!("comment {}", i),
            }
        );
    }
}

#[test]
fn listing_of_an_empty_history_is_empty() {
    assert_eq!(print_individual_bench_info(&IndividualBenchInfo::new()), Ok(Vec::new()));
}

#[test]
fn listing_of_a_corrupt_history_is_refused() {
    let mut info = three_runs();
    info.source_hashes.pop();
    assert_eq!(print_individual_bench_info(&info), Err(BenchError::CorruptState));
}

#[test]
fn plot_points_pair_each_place_with_its_time() {
    let mut info = IndividualBenchInfo::new();
    let done = run_individual_benchmark(
        &mut info,
        report(&[3.5, 0.0, 1e9]),
        "c".to_string(),
        "h".to_string(),
    );
    assert_eq!(done, Ok(()));
    assert_eq!(run_individual_benchmark(&mut info, report(&[]), "d".to_string(), "i".to_string()), Ok(()));
    assert_eq!(
        benchviz::history::plot_points(&info, 0),
        Ok(vec![(0, 3.5f64.to_bits()), (1, 0.0f64.to_bits()), (2, 1e9f64.to_bits())])
    );
    assert_eq!(benchviz::history::plot_points(&info, 1), Ok(Vec::new()));
    assert_eq!(benchviz::history::plot_points(&info, 2), Err(BenchError::OutOfRange(2, 2)));
    info.commentary.pop();
    assert_eq!(benchviz::history::plot_points(&info, 0), Err(BenchError::CorruptState));
}
