//! From what the tokenizer gave for a line to the runs of that line.
//!
//! The tokenizer's answer is taken only where its pieces spell the line.
//! Where it failed, or where its pieces spell anything else, the line becomes
//! one run in the fallback colour, so that no text is ever lost.

use crate::style::{spelled, Rgb, RunView, StyledRun};
use vstd::prelude::*;
use vstd::string::StringExecFns;

verus! {

/// The line as one run in the fallback colour.
pub open spec fn plain_runs(line: Seq<char>, fallback: Rgb) -> Seq<RunView> {
    seq![RunView { text: line, color: fallback }]
}

/// The runs of a line, given what the tokenizer answered for it.
pub open spec fn line_runs_of(line: Seq<char>, outcome: Option<Seq<RunView>>, fallback: Rgb) -> Seq<
    RunView,
> {
    if outcome is Some && spelled(outcome->0) == line {
        outcome->0
    } else {
        plain_runs(line, fallback)
    }
}

/// The tokenizer's answer as a mathematical value.
pub open spec fn outcome_view(outcome: Option<Vec<StyledRun>>) -> Option<Seq<RunView>> {
    match outcome {
        Some(runs) => Some(runs.deep_view()),
        None => None,
    }
}

/// One run spells its own text.
pub proof fn lemma_plain_runs_spell(line: Seq<char>, fallback: Rgb)
    ensures
        spelled(plain_runs(line, fallback)) == line,
{
    let texts = plain_runs(line, fallback).map_values(|r: RunView| r.text);
    assert(texts == seq![line]);
    texts.lemma_flatten_one_element();
}

/// Whatever the tokenizer answered, the runs of a line spell the line.
pub proof fn lemma_line_runs_spell(line: Seq<char>, outcome: Option<Seq<RunView>>, fallback: Rgb)
    ensures
        spelled(line_runs_of(line, outcome, fallback)) == line,
{
    lemma_plain_runs_spell(line, fallback);
}

/// Whether `runs`, read one after the other, spell `line`.
pub fn spells(runs: &Vec<StyledRun>, line: &str) -> (yes: bool)
    ensures
        yes == (spelled(runs.deep_view()) == line@),
{
    let mut joined = String::new();
    let mut i: usize = 0;
    proof {
        assert(runs.deep_view().take(0).map_values(|r: RunView| r.text) == Seq::<
            Seq<char>,
        >::empty());
    }
    while i < runs.len()
        invariant
            i <= runs.len(),
            joined@ == spelled(runs.deep_view().take(i as int)),
        decreases runs.len() - i,
    {
        proof {
            broadcast use Seq::lemma_flatten_push;

            let texts = |r: RunView| r.text;
            let before = runs.deep_view().take(i as int);
            let after = runs.deep_view().take(i + 1);
            assert(runs.deep_view()[i as int] == runs[i as int]@);
            assert(after == before.push(runs[i as int]@));
            assert(after.map_values(texts) == before.map_values(texts).push(runs[i as int].text@));
        }
        joined.append(runs[i].text.as_str());
        i += 1;
    }
    proof {
        assert(runs.deep_view().take(i as int) == runs.deep_view());
    }
    let whole = String::from_str(line);
    joined == whole
}

/// The runs of `line`: the tokenizer's, where it gave runs that spell the
/// line; else the whole line as one run in the `fallback` colour.
pub fn line_runs(line: &str, outcome: Option<Vec<StyledRun>>, fallback: Rgb) -> (runs: Vec<
    StyledRun,
>)
    ensures
        runs.deep_view() == line_runs_of(line@, outcome_view(outcome), fallback),
        spelled(runs.deep_view()) == line@,
{
    proof {
        lemma_line_runs_spell(line@, outcome_view(outcome), fallback);
    }
    match outcome {
        Some(given) => {
            if spells(&given, line) {
                return given;
            }
        },
        None => {},
    }
    let mut runs: Vec<StyledRun> = Vec::new();
    runs.push(StyledRun { text: String::from_str(line), color: fallback });
    proof {
        assert(runs.deep_view()[0] == runs[0]@);
        assert(runs.deep_view() == plain_runs(line@, fallback));
    }
    runs
}

} // verus!
