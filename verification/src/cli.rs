//! What the command line must give for a command that works on runs.

use vstd::prelude::*;
use crate::types::{BenchError, BenchErrorView};

verus! {

/// Takes the name of a benchmark and a run identifier as the command line
/// gave them. Both must be there, or neither: with neither, the caller asks
/// for them; with one alone there is nothing sensible to do.
pub fn parse_bench_id<'a>(name: Option<&'a str>, run_id: Option<&'a str>) -> (r: Result<
    (Option<&'a str>, Option<&'a str>),
    BenchError,
>)
    ensures
        match r {
            Ok(both) => both == (name, run_id) && (name is Some <==> run_id is Some),
            Err(e) => e@ == BenchErrorView::MissingArgument && !(name is Some <==> run_id is Some),
        },
{
    match (name, run_id) {
        (Some(name), Some(run_id)) => Ok((Some(name), Some(run_id))),
        (None, None) => Ok((None, None)),
        (_, _) => Err(BenchError::MissingArgument),
    }
}

} // verus!
