use benchviz::decimal::parse_index;
use benchviz::resolver::parse_run_id;
use benchviz::types::{BenchError, IndividualBenchInfo, RunId};

fn history_of(runs: usize) -> IndividualBenchInfo {
    let mut info = IndividualBenchInfo::new();
    for i in 0..runs {
        info.benchmarks.push(Vec::new());
        info.commentary.push(format!("run {}", i));
        info.source_hashes.push(format!("hash{}", i));
    }
    info
}

#[test]
fn star_names_all_runs() {
    assert_eq!(parse_run_id(&history_of(0), "*"), Ok(RunId::All));
    assert_eq!(parse_run_id(&history_of(3), "*"), Ok(RunId::All));
}

#[test]
fn star_names_all_runs_of_a_corrupt_history() {
    let mut info = history_of(2);
    info.commentary.push("stray".to_string());
    assert_eq!(parse_run_id(&info, "*"), Ok(RunId::All));
}

#[test]
fn index_in_empty_history_is_out_of_range() {
    let info = IndividualBenchInfo::new();
    assert_eq!(parse_run_id(&info, "0"), Err(BenchError::OutOfRange(0, 0)));
}

#[test]
fn index_below_the_number_of_runs_is_that_run() {
    let info = history_of(12);
    for i in 0..12usize {
        assert_eq!(parse_run_id(&info, &i.to_string()), Ok(RunId::Index(i)));
    }
}

#[test]
fn index_at_or_above_the_number_of_runs_is_out_of_range() {
    let info = history_of(3);
    assert_eq!(parse_run_id(&info, "3"), Err(BenchError::OutOfRange(3, 3)));
    assert_eq!(parse_run_id(&info, "10"), Err(BenchError::OutOfRange(10, 3)));
    let most = usize::MAX.to_string();
    assert_eq!(parse_run_id(&info, &most), Err(BenchError::OutOfRange(usize::MAX, 3)));
}

#[test]
fn other_text_is_unparseable() {
    let info = history_of(3);
    for token in ["", "abc", "-1", "1.0", " 1", "1 ", "**", "1_0", "+", "++1", "0x1", "\u{661}"] {
        assert_eq!(
            parse_run_id(&info, token),
            Err(BenchError::Unparseable(token.to_string())),
            "token {:?}",
            token
        );
    }
}

#[test]
fn number_too_large_for_an_index_is_unparseable() {
    let info = history_of(3);
    let token = format!("{}0", usize::MAX);
    assert_eq!(parse_run_id(&info, &token), Err(BenchError::Unparseable(token.clone())));
    let token = "340282366920938463463374607431768211456";
    assert_eq!(parse_run_id(&info, token), Err(BenchError::Unparseable(token.to_string())));
}

#[test]
fn plus_sign_and_leading_zeros_are_read() {
    let info = history_of(8);
    assert_eq!(parse_run_id(&info, "+5"), Ok(RunId::Index(5)));
    assert_eq!(parse_run_id(&info, "007"), Ok(RunId::Index(7)));
    assert_eq!(parse_run_id(&info, "+000"), Ok(RunId::Index(0)));
}

#[test]
fn corrupt_history_is_told_before_the_text_is_read() {
    let mut info = history_of(2);
    info.commentary.push("stray".to_string());
    assert_eq!(parse_run_id(&info, "0"), Err(BenchError::CorruptState));
    assert_eq!(parse_run_id(&info, "7"), Err(BenchError::CorruptState));
    assert_eq!(parse_run_id(&info, "abc"), Err(BenchError::CorruptState));

    let mut info = history_of(2);
    info.source_hashes.pop();
    assert_eq!(parse_run_id(&info, "0"), Err(BenchError::CorruptState));

    let mut info = history_of(2);
    info.benchmarks.push(Vec::new());
    assert_eq!(parse_run_id(&info, "0"), Err(BenchError::CorruptState));
}

#[test]
fn parse_index_agrees_with_the_standard_reading() {
    let tokens = [
        "0", "1", "9", "10", "42", "+42", "0042", "", "+", "-", "-0", "+-1", "1+", "4 2", "٤٢",
        "18446744073709551615", "18446744073709551616", "4294967295", "4294967296",
        "99999999999999999999999", "000000000000000000000000000001", "1e3", "١", "a", "/", ":",
    ];
    for token in tokens {
        assert_eq!(parse_index(token), token.parse::<usize>().ok(), "token {:?}", token);
    }
}

#[test]
fn parse_index_reads_the_largest_index() {
    assert_eq!(parse_index(&usize::MAX.to_string()), Some(usize::MAX));
    assert_eq!(parse_index(&format!("+{}", usize::MAX)), Some(usize::MAX));
    assert_eq!(parse_index(&(usize::MAX - 1).to_string()), Some(usize::MAX - 1));
}
