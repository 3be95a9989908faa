//! Batch runs: the queries of a file, run one at a time, with one policy
//! switch for errors.

use vstd::prelude::*;
use crate::output::{error_text, rendered, OutputFormatter};
use crate::text::{trim_spec, trim_white_space};

verus! {

/// The pieces of `s` between occurrences of `c`; a text without `c` is one piece.
pub open spec fn split_on(s: Seq<char>, c: char) -> Seq<Seq<char>>
    decreases s.len(),
{
    if s.len() == 0 {
        seq![Seq::empty()]
    } else {
        let before = split_on(s.drop_last(), c);
        if s.last() == c {
            before.push(Seq::empty())
        } else {
            before.update(before.len() - 1, before.last().push(s.last()))
        }
    }
}

/// The trimmed pieces of `pieces` that are not empty once trimmed, in order.
pub open spec fn nonempty_trimmed(pieces: Seq<Seq<char>>) -> Seq<Seq<char>>
    decreases pieces.len(),
{
    if pieces.len() == 0 {
        Seq::empty()
    } else {
        let before = nonempty_trimmed(pieces.drop_last());
        let t = trim_spec(pieces.last());
        if t.len() == 0 {
            before
        } else {
            before.push(t)
        }
    }
}

/// The queries of a batch text: its `;`-separated pieces, trimmed, empty ones left out.
pub open spec fn batch_queries(content: Seq<char>) -> Seq<Seq<char>> {
    nonempty_trimmed(split_on(content, ';'))
}

/// Relies on `str::split` with a `char` pattern: the substrings between the
/// matches, in order, an empty text giving one empty piece.
#[verifier::external_body]
fn split_semicolons(s: &str) -> (r: Vec<String>)
    ensures
        r@.map_values(|p: String| p@) == split_on(s@, ';'),
{
    s.split(';').map(|p| p.to_string()).collect()
}

/// The queries of a batch text, in order.
pub fn split_queries(content: &str) -> (r: Vec<String>)
    ensures
        r@.map_values(|p: String| p@) == batch_queries(content@),
{
    let pieces = split_semicolons(content);
    let ghost pv = pieces@.map_values(|p: String| p@);
    let mut queries: Vec<String> = Vec::new();
    let mut i: usize = 0;
    while i < pieces.len()
        invariant
            i <= pieces.len(),
            pv == pieces@.map_values(|p: String| p@),
            queries@.map_values(|p: String| p@) == nonempty_trimmed(pv.subrange(0, i as int)),
        decreases pieces.len() - i,
    {
        let t = trim_white_space(pieces[i].as_str());
        let ghost before = queries@;
        if !t.is_empty() {
            queries.push(String::from_str(t));
        }
        proof {
            assert(pv.subrange(0, i as int + 1).drop_last() =~= pv.subrange(0, i as int));
            if t@.len() != 0 {
                assert(queries@ =~= before.push(queries@.last()));
                assert(queries@.map_values(|p: String| p@) =~= before.map_values(|p: String| p@).push(t@));
            }
        }
        i = i + 1;
    }
    proof {
        assert(pv.subrange(0, pieces.len() as int) =~= pv);
    }
    queries
}

/// What one query of a batch prints, and whether the run stops there.
#[derive(Debug)]
pub struct BatchStep {
    /// Text for the output stream.
    pub out: String,
    /// Text for the error stream.
    pub err: String,
    /// Whether the run ends with this query.
    pub stop: bool,
}

/// The view of a batch step: output text, error text, and whether it stops.
pub open spec fn step_view(s: BatchStep) -> (Seq<char>, Seq<char>, bool) {
    (s.out@, s.err@, s.stop)
}

/// What one query of a batch prints for its outcome: the result rendered in
/// `format`, or an error, which ends the run under `stop_on_error`.
pub open spec fn batch_step(
    format: crate::cli::OutputFormat,
    stop_on_error: bool,
    outcome: Result<Seq<char>, Seq<char>>,
) -> (Seq<char>, Seq<char>, bool) {
    match outcome {
        Ok(raw) => (rendered(raw, format), Seq::empty(), false),
        Err(e) => (Seq::empty(), error_text("Failed to execute query: "@ + e), stop_on_error),
    }
}

/// The steps of a batch run over the outcomes of its queries, up to and
/// including the one that stops it.
pub open spec fn batch_trace(
    format: crate::cli::OutputFormat,
    stop_on_error: bool,
    outcomes: Seq<Result<Seq<char>, Seq<char>>>,
) -> Seq<(Seq<char>, Seq<char>, bool)>
    decreases outcomes.len(),
{
    if outcomes.len() == 0 {
        Seq::empty()
    } else {
        let first = batch_step(format, stop_on_error, outcomes[0]);
        if first.2 {
            seq![first]
        } else {
            seq![first] + batch_trace(format, stop_on_error, outcomes.drop_first())
        }
    }
}

pub open spec fn outcome_view(o: Result<String, String>) -> Result<Seq<char>, Seq<char>> {
    match o {
        Ok(raw) => Ok(raw@),
        Err(e) => Err(e@),
    }
}

/// What a batch run prints for the outcome of one query.
pub fn batch_outcome(formatter: &OutputFormatter, stop_on_error: bool, outcome: &Result<String, String>) -> (r: BatchStep)
    ensures
        step_view(r) == batch_step(formatter.format, stop_on_error, outcome_view(*outcome)),
{
    match outcome {
        Ok(raw) => BatchStep { out: formatter.display_results(raw.as_str()), err: String::new(), stop: false },
        Err(e) => {
            let mut message = String::from_str("Failed to execute query: ");
            message.append(e.as_str());
            BatchStep { out: String::new(), err: formatter.error(message.as_str()), stop: stop_on_error }
        },
    }
}

/// Without stop-on-error a batch runs to its end: every query has its step,
/// a result rendered where it succeeded and an error reported where it
/// failed.
pub proof fn lemma_batch_runs_past_errors(
    format: crate::cli::OutputFormat,
    outcomes: Seq<Result<Seq<char>, Seq<char>>>,
)
    ensures
        batch_trace(format, false, outcomes).len() == outcomes.len(),
        forall|i: int|
            0 <= i < outcomes.len() ==> #[trigger] batch_trace(format, false, outcomes)[i]
                == batch_step(format, false, outcomes[i]),
        forall|i: int| 0 <= i < outcomes.len() ==> !(#[trigger] batch_trace(format, false, outcomes)[i]).2,
    decreases outcomes.len(),
{
    if outcomes.len() > 0 {
        lemma_batch_runs_past_errors(format, outcomes.drop_first());
        let rest = batch_trace(format, false, outcomes.drop_first());
        let first = batch_step(format, false, outcomes[0]);
        assert(batch_trace(format, false, outcomes) == seq![first] + rest);
        assert forall|i: int| 0 <= i < outcomes.len() implies #[trigger] batch_trace(format, false, outcomes)[i]
            == batch_step(format, false, outcomes[i]) by {
            if i > 0 {
                assert(outcomes.drop_first()[i - 1] == outcomes[i]);
            }
        }
    }
}

/// With stop-on-error a batch ends at its first failing query: every step
/// before it succeeded, and none follows it.
pub proof fn lemma_batch_stops_at_first_error(
    format: crate::cli::OutputFormat,
    outcomes: Seq<Result<Seq<char>, Seq<char>>>,
    k: int,
)
    requires
        0 <= k < outcomes.len(),
        outcomes[k] is Err,
        forall|i: int| 0 <= i < k ==> outcomes[i] is Ok,
    ensures
        batch_trace(format, true, outcomes).len() == k + 1,
        batch_trace(format, true, outcomes)[k] == batch_step(format, true, outcomes[k]),
    decreases k,
{
    if k > 0 {
        let rest = outcomes.drop_first();
        assert forall|i: int| 0 <= i < k - 1 implies rest[i] is Ok by {
            assert(rest[i] == outcomes[i + 1]);
        }
        lemma_batch_stops_at_first_error(format, rest, k - 1);
        assert(outcomes[0] is Ok);
    }
}

} // verus!
