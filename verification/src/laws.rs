//! What holds of every projector and every text.

use crate::lines::{lemma_split_lines, split_lines};
use crate::projector::{
    answer, lemma_projected_spells, plain_text_name, projected, resolve, ConstructionError,
    OnUnknownLanguage, ProjectorView,
};
use crate::runs::plain_runs;
use crate::style::{spelled, spelled_lines, Rgb, RunView};
use crate::tokenizer::{
    ascii_lowered, fresh_tokenizer, highlight_step, syntax_for_extension, syntax_named, themes_of,
    tokenizer_after,
};
use syntect::easy::HighlightLines;
use syntect::highlighting::ThemeSet;
use syntect::parsing::SyntaxSet;
use vstd::prelude::*;

verus! {

/// The runs of a pass, read line after line, spell the text that went in,
/// line feeds included: there is one line of runs for each line of the text,
/// and it spells that line.
pub proof fn lemma_round_trip(projector: ProjectorView, text: Seq<char>)
    ensures
        spelled_lines(projector.projection(text)) == text,
        projector.projection(text).len() == split_lines(text).len(),
        forall|i: int|
            0 <= i < split_lines(text).len() ==> spelled(#[trigger] projector.projection(text)[i])
                == split_lines(text)[i],
{
    lemma_projected_spells(
        fresh_tokenizer(projector.syntax, projector.theme),
        projector.syntax_set,
        split_lines(text),
        projector.fallback,
    );
    lemma_split_lines(text);
}

/// Two projectors built from the same registries for the same language and
/// theme, under the same policy, give the same runs for the same text.
pub proof fn lemma_same_names_same_runs(
    set: SyntaxSet,
    themes: ThemeSet,
    language: Seq<char>,
    theme: Seq<char>,
    policy: OnUnknownLanguage,
    first: ProjectorView,
    second: ProjectorView,
    text: Seq<char>,
)
    requires
        resolve(set, themes, language, theme, policy) == Ok::<ProjectorView, ConstructionError>(
            first,
        ),
        resolve(set, themes, language, theme, policy) == Ok::<ProjectorView, ConstructionError>(
            second,
        ),
    ensures
        first.projection(text) == second.projection(text),
{
}

/// A theme name that the theme set does not hold is refused, whatever the
/// language and the policy, and no projector is built.
pub proof fn lemma_unknown_theme_fails(
    set: SyntaxSet,
    themes: ThemeSet,
    language: Seq<char>,
    theme: Seq<char>,
    policy: OnUnknownLanguage,
)
    requires
        !themes_of(themes).dom().contains(theme),
    ensures
        resolve(set, themes, language, theme, policy) == Err::<ProjectorView, ConstructionError>(
            ConstructionError::UnknownTheme,
        ),
{
}

/// With a known theme, a language that the syntax set does not know is
/// refused under the policy to fail. Under the policy to fall back, the
/// projector is built on the set's plain text syntax, and the language is
/// refused only where the set has no such syntax.
pub proof fn lemma_unknown_language(
    set: SyntaxSet,
    themes: ThemeSet,
    language: Seq<char>,
    theme: Seq<char>,
)
    requires
        themes_of(themes).dom().contains(theme),
        syntax_for_extension(set, ascii_lowered(language)) is None,
    ensures
        resolve(set, themes, language, theme, OnUnknownLanguage::Fail) == Err::<
            ProjectorView,
            ConstructionError,
        >(ConstructionError::UnknownLanguage),
        syntax_named(set, plain_text_name()) is Some ==> {
            let r = resolve(set, themes, language, theme, OnUnknownLanguage::FallbackPlaintext);
            &&& r is Ok
            &&& r->Ok_0.plaintext
            &&& Some(r->Ok_0.syntax) == syntax_named(set, plain_text_name())
        },
        syntax_named(set, plain_text_name()) is None ==> resolve(
            set,
            themes,
            language,
            theme,
            OnUnknownLanguage::FallbackPlaintext,
        ) == Err::<ProjectorView, ConstructionError>(ConstructionError::UnknownLanguage),
{
}

/// The case of the ASCII letters of a language makes no difference to the
/// projector that is built for it.
pub proof fn lemma_language_case(
    set: SyntaxSet,
    themes: ThemeSet,
    language: Seq<char>,
    other: Seq<char>,
    theme: Seq<char>,
    policy: OnUnknownLanguage,
)
    requires
        ascii_lowered(language) == ascii_lowered(other),
    ensures
        resolve(set, themes, language, theme, policy) == resolve(set, themes, other, theme, policy),
{
}

/// In one pass the tokenizer's answer for a line rests on the lines before
/// it: it is the answer of the tokenizer that those lines have gone through,
/// not of a new one.
pub proof fn lemma_state_carries_over(
    start: HighlightLines<'_>,
    set: SyntaxSet,
    lines: Seq<Seq<char>>,
    i: int,
)
    requires
        0 < i < lines.len(),
    ensures
        answer(start, set, lines, i) == answer(
            highlight_step(
                tokenizer_after(start, set, lines.take(i - 1)),
                lines[i - 1],
                set,
            ).0,
            set,
            lines.skip(i),
            0,
        ),
{
    assert(lines.take(i).drop_last() == lines.take(i - 1));
    assert(lines.take(i).last() == lines[i - 1]);
    assert(lines.skip(i).take(0) == Seq::<Seq<char>>::empty());
    assert(lines.skip(i)[0] == lines[i]);
}

/// A pass over the same text gives the same runs each time.
pub proof fn lemma_pass_repeats(
    projector: ProjectorView,
    text: Seq<char>,
    first: Seq<Seq<RunView>>,
    second: Seq<Seq<RunView>>,
)
    requires
        first == projector.projection(text),
        second == projector.projection(text),
    ensures
        first == second,
{
}

/// A line on which the tokenizer fails comes out whole, as one run in the
/// fallback colour, and the other lines are as they would be without the
/// failure: each of them has the runs that the tokenizer gave for it,
/// wherever those spell it.
pub proof fn lemma_failed_line_is_kept(
    start: HighlightLines<'_>,
    set: SyntaxSet,
    lines: Seq<Seq<char>>,
    fallback: Rgb,
    failed: int,
)
    requires
        0 <= failed < lines.len(),
        answer(start, set, lines, failed) is None,
    ensures
        projected(start, set, lines, fallback)[failed] == plain_runs(lines[failed], fallback),
        projected(start, set, lines, fallback)[failed].len() == 1,
        projected(start, set, lines, fallback)[failed][0].text == lines[failed],
        forall|j: int|
            0 <= j < lines.len() && answer(start, set, lines, j) is Some && spelled(
                answer(start, set, lines, j)->0,
            ) == lines[j] ==> #[trigger] projected(start, set, lines, fallback)[j] == answer(
                start,
                set,
                lines,
                j,
            )->0,
{
}

} // verus!
