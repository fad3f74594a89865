use benchviz::cli::parse_bench_id;
use benchviz::types::BenchError;

#[test]
fn name_and_run_id_come_together_or_not_at_all() {
    assert_eq!(parse_bench_id(Some("sort"), Some("3")), Ok((Some("sort"), Some("3"))));
    assert_eq!(parse_bench_id(None, None), Ok((None, None)));
    assert_eq!(parse_bench_id(Some("sort"), None), Err(BenchError::MissingArgument));
    assert_eq!(parse_bench_id(None, Some("3")), Err(BenchError::MissingArgument));
    assert_eq!(parse_bench_id(Some(""), Some("")), Ok((Some(""), Some(""))));
}
