//! Reading a run identifier against a history: `*` for all runs, or the index
//! of one run.

use vstd::prelude::*;
use crate::comparison::comparison;
use crate::decimal::{
    decimal_text, is_digit, lemma_decimal_text, lemma_no_digit_is_no_index,
    lemma_other_character_is_no_index, lemma_parse_decimal_text, parse_index, spec_parse_index,
};
use crate::history::removal;
use crate::text::same_text;
use crate::types::{BenchError, BenchErrorView, HistoryView, IndividualBenchInfo, RunId};

verus! {

/// The text that names all runs.
pub open spec fn all_runs_text() -> Seq<char> {
    seq!['*']
}

/// What a run identifier stands for in a history.
///
/// `*` names all runs, whatever the history holds. Any other text is read
/// against a consistent history only: it must be an index, and the index must
/// be below the number of runs.
pub open spec fn resolve(h: HistoryView, token: Seq<char>) -> Result<RunId, BenchErrorView> {
    if token == all_runs_text() {
        Ok(RunId::All)
    } else if !h.consistent() {
        Err(BenchErrorView::CorruptState)
    } else {
        match spec_parse_index(token) {
            None => Err(BenchErrorView::Unparseable(token)),
            Some(i) => if i >= h.num_runs() {
                Err(BenchErrorView::OutOfRange(i, h.num_runs() as usize))
            } else {
                Ok(RunId::Index(i))
            },
        }
    }
}

/// Reads a run identifier against the history of a benchmark. The error tells
/// the caller what to report; whether to ask again is the caller's choice.
pub fn parse_run_id(info: &IndividualBenchInfo, run_id: &str) -> (r: Result<RunId, BenchError>)
    ensures
        match r {
            Ok(id) => resolve(info@, run_id@) == Ok::<RunId, BenchErrorView>(id),
            Err(e) => resolve(info@, run_id@) == Err::<RunId, BenchErrorView>(e@),
        },
{
    proof {
        reveal_strlit("*");
        assert("*"@ =~= all_runs_text());
    }
    if same_text(run_id, "*") {
        return Ok(RunId::All);
    }
    if !info.is_consistent() {
        return Err(BenchError::CorruptState);
    }
    match parse_index(run_id) {
        None => Err(BenchError::Unparseable(run_id.to_owned())),
        Some(val) => {
            let runs = info.num_runs();
            if val >= runs {
                Err(BenchError::OutOfRange(val, runs))
            } else {
                Ok(RunId::Index(val))
            }
        },
    }
}

/// `*` stands for all runs in every history, a corrupt one too.
pub proof fn lemma_star_names_all(h: HistoryView)
    ensures
        resolve(h, all_runs_text()) == Ok::<RunId, BenchErrorView>(RunId::All),
{
}

/// In a consistent history the decimal text of a number stands for the run of
/// that index where the number is below the number of runs, and is out of
/// range where it is not.
pub proof fn lemma_index_text_resolves(h: HistoryView, i: nat)
    requires
        h.consistent(),
        i <= usize::MAX,
    ensures
        i < h.num_runs() ==> resolve(h, decimal_text(i)) == Ok::<RunId, BenchErrorView>(
            RunId::Index(i as usize),
        ),
        i >= h.num_runs() ==> resolve(h, decimal_text(i)) == Err::<RunId, BenchErrorView>(
            BenchErrorView::OutOfRange(i as usize, h.num_runs() as usize),
        ),
{
    lemma_parse_decimal_text(i);
    lemma_decimal_text(i);
    // a digit stands in front, and `*` is none
    assert(is_digit(decimal_text(i)[0]));
}

/// In a consistent history a text other than `*` that holds anything but
/// digits behind an optional `+` in front is handed back as unparseable.
pub proof fn lemma_other_text_is_unparseable(h: HistoryView, token: Seq<char>, i: int)
    requires
        h.consistent(),
        token != all_runs_text(),
        0 <= i < token.len(),
        !is_digit(token[i]),
        !(i == 0 && token[0] == '+'),
    ensures
        resolve(h, token) == Err::<RunId, BenchErrorView>(BenchErrorView::Unparseable(token)),
{
    lemma_other_character_is_no_index(token, i);
}

/// In a consistent history a text without any digit, the empty text or a
/// lone `+`, is handed back as unparseable.
pub proof fn lemma_text_without_digit_is_unparseable(h: HistoryView, token: Seq<char>)
    requires
        h.consistent(),
        token.len() == 0 || (token.len() == 1 && token[0] == '+'),
    ensures
        resolve(h, token) == Err::<RunId, BenchErrorView>(BenchErrorView::Unparseable(token)),
{
    lemma_no_digit_is_no_index(token);
}

/// In a consistent history the decimal text of a number that is too large
/// for an index is handed back as unparseable.
pub proof fn lemma_too_large_number_is_unparseable(h: HistoryView, n: nat)
    requires
        h.consistent(),
        n > usize::MAX,
    ensures
        resolve(h, decimal_text(n)) == Err::<RunId, BenchErrorView>(
            BenchErrorView::Unparseable(decimal_text(n)),
        ),
{
    lemma_parse_decimal_text(n);
    lemma_decimal_text(n);
    assert(is_digit(decimal_text(n)[0]));
}

/// A run that an identifier names is in the history: the history is
/// consistent and the index is below its number of runs.
pub proof fn lemma_resolved_run_is_there(h: HistoryView, token: Seq<char>)
    ensures
        resolve(h, token) matches Ok(RunId::Index(i)) ==> h.consistent() && i < h.num_runs(),
{
}

/// What an identifier names can be removed: the removal of a resolved
/// identifier is never refused.
pub proof fn lemma_resolved_runs_can_be_removed(h: HistoryView, token: Seq<char>)
    ensures
        resolve(h, token) matches Ok(run_id) ==> removal(h, run_id) is Ok,
{
}

/// Two runs that identifiers name can be compared: the comparison of two
/// resolved indices is never refused.
pub proof fn lemma_resolved_runs_can_be_compared(
    h: HistoryView,
    lhs: Seq<char>,
    rhs: Seq<char>,
    i: usize,
    j: usize,
)
    requires
        resolve(h, lhs) == Ok::<RunId, BenchErrorView>(RunId::Index(i)),
        resolve(h, rhs) == Ok::<RunId, BenchErrorView>(RunId::Index(j)),
    ensures
        comparison(h, i, j) is Ok,
{
}

} // verus!
