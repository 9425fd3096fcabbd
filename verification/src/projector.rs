//! The projector: a syntax, a theme, and the pass that turns a buffer into
//! lines of coloured runs.
//!
//! A pass starts a new tokenizer, feeds it the lines of the buffer in order,
//! and keeps its state from one line to the next, so that a construct which
//! spans lines is coloured as one. Nothing is kept between passes.

use crate::lines::{lemma_split_lines, split_lines, split_lines_of};
use crate::runs::{lemma_line_runs_spell, line_runs, line_runs_of};
use crate::style::{spelled, spelled_lines, Rgb, RunView, StyledRun};
use crate::tokenizer::{
    ascii_lowered, bundled_syntaxes, bundled_themes, find_syntax_by_extension, find_syntax_by_name,
    foreground_of, fresh_tokenizer, highlight_line, highlight_step, start_tokenizer,
    syntax_for_extension, syntax_named, syntax_of_set, theme_by_name, theme_foreground,
    themes_of, tokenizer_after,
};
use syntect::easy::HighlightLines;
use syntect::highlighting::{Theme, ThemeSet};
use syntect::parsing::{SyntaxReference, SyntaxSet};
use vstd::prelude::*;

verus! {

/// What to do with a language that the syntax set does not know.
#[derive(Clone, Copy, Debug, PartialEq, Eq, Structural)]
pub enum OnUnknownLanguage {
    /// Refuse to build the projector.
    Fail,
    /// Use the plain text syntax, which colours nothing.
    FallbackPlaintext,
}

/// Why a projector could not be built.
#[derive(Clone, Copy, Debug, PartialEq, Eq, Structural)]
pub enum ConstructionError {
    /// The syntax set has no syntax for the language, and either the policy
    /// was to fail or the set has no plain text syntax to fall back on.
    UnknownLanguage,
    /// The theme set has no theme of that name.
    UnknownTheme,
}

/// Turns text into lines of coloured runs, with one syntax and one theme.
#[derive(Debug)]
pub struct Projector {
    pub(crate) syntax_set: SyntaxSet,
    pub(crate) syntax: SyntaxReference,
    pub(crate) theme: Theme,
    pub(crate) fallback: Rgb,
    pub(crate) plaintext: bool,
}

/// What a [`Projector`] holds, as a mathematical value.
pub ghost struct ProjectorView {
    pub syntax_set: SyntaxSet,
    pub syntax: SyntaxReference,
    pub theme: Theme,
    pub fallback: Rgb,
    pub plaintext: bool,
}

/// The name under which a syntax set holds its plain text syntax.
pub open spec fn plain_text_name() -> Seq<char> {
    "Plain Text"@
}

/// The colour of text that no rule colours: the theme's, or black where the
/// theme sets none.
pub open spec fn fallback_color(foreground: Option<Rgb>) -> Rgb {
    match foreground {
        Some(c) => c,
        None => Rgb { r: 0, g: 0, b: 0 },
    }
}

/// What the tokenizer answers for line `i` of `lines` in a pass that began
/// with `start`: its runs, or `None` where it failed.
pub open spec fn answer(
    start: HighlightLines<'_>,
    set: SyntaxSet,
    lines: Seq<Seq<char>>,
    i: int,
) -> Option<Seq<RunView>> {
    highlight_step(tokenizer_after(start, set, lines.take(i)), lines[i], set).1
}

/// The runs of every line of a pass over `lines` that began with `start`.
pub open spec fn projected(
    start: HighlightLines<'_>,
    set: SyntaxSet,
    lines: Seq<Seq<char>>,
    fallback: Rgb,
) -> Seq<Seq<RunView>> {
    Seq::new(lines.len(), |i: int| line_runs_of(lines[i], answer(start, set, lines, i), fallback))
}

/// The projector that the two registries give for a language and a theme.
pub open spec fn resolve(
    set: SyntaxSet,
    themes: ThemeSet,
    language: Seq<char>,
    theme: Seq<char>,
    policy: OnUnknownLanguage,
) -> Result<ProjectorView, ConstructionError> {
    if !themes_of(themes).dom().contains(theme) {
        Err(ConstructionError::UnknownTheme)
    } else {
        let theme = themes_of(themes)[theme];
        let fallback = fallback_color(theme_foreground(theme));
        let found = syntax_for_extension(set, ascii_lowered(language));
        if found is Some {
            Ok(
                ProjectorView {
                    syntax_set: set,
                    syntax: found->0,
                    theme,
                    fallback,
                    plaintext: false,
                },
            )
        } else if policy == OnUnknownLanguage::FallbackPlaintext && syntax_named(
            set,
            plain_text_name(),
        ) is Some {
            Ok(
                ProjectorView {
                    syntax_set: set,
                    syntax: syntax_named(set, plain_text_name())->0,
                    theme,
                    fallback,
                    plaintext: true,
                },
            )
        } else {
            Err(ConstructionError::UnknownLanguage)
        }
    }
}

impl ProjectorView {
    /// The lines of runs that a pass over `text` gives.
    pub open spec fn projection(self, text: Seq<char>) -> Seq<Seq<RunView>> {
        projected(
            fresh_tokenizer(self.syntax, self.theme),
            self.syntax_set,
            split_lines(text),
            self.fallback,
        )
    }
}

impl View for Projector {
    type V = ProjectorView;

    closed spec fn view(&self) -> ProjectorView {
        ProjectorView {
            syntax_set: self.syntax_set,
            syntax: self.syntax,
            theme: self.theme,
            fallback: self.fallback,
            plaintext: self.plaintext,
        }
    }
}

impl Clone for Projector {
    /// A projector with the same syntax, theme and colours.
    fn clone(&self) -> (copy: Projector)
        ensures
            copy@ == self@,
    {
        proof {
            use_type_invariant(self);
        }
        Projector {
            syntax_set: self.syntax_set.clone(),
            syntax: self.syntax.clone(),
            theme: self.theme.clone(),
            fallback: self.fallback,
            plaintext: self.plaintext,
        }
    }
}

/// The view of what a construction returned.
pub open spec fn built(r: Result<Projector, ConstructionError>) -> Result<
    ProjectorView,
    ConstructionError,
> {
    match r {
        Ok(p) => Ok(p@),
        Err(e) => Err(e),
    }
}

/// Each line of a pass spells the line it was made from, so the pass spells
/// the lines.
pub proof fn lemma_projected_spells(
    start: HighlightLines<'_>,
    set: SyntaxSet,
    lines: Seq<Seq<char>>,
    fallback: Rgb,
)
    ensures
        projected(start, set, lines, fallback).len() == lines.len(),
        forall|i: int|
            0 <= i < lines.len() ==> spelled(#[trigger] projected(start, set, lines, fallback)[i])
                == lines[i],
        spelled_lines(projected(start, set, lines, fallback)) == lines.flatten(),
{
    let out = projected(start, set, lines, fallback);
    assert forall|i: int| 0 <= i < lines.len() implies spelled(#[trigger] out[i]) == lines[i] by {
        lemma_line_runs_spell(lines[i], answer(start, set, lines, i), fallback);
    }
    assert(out.map_values(|l: Seq<RunView>| spelled(l)) == lines);
}

impl Projector {
    #[verifier::type_invariant]
    spec fn fits(self) -> bool {
        syntax_of_set(self.syntax, self.syntax_set)
    }

    /// Builds a projector from a syntax set and a theme set.
    ///
    /// The theme is looked up first. A language that the set does not know is
    /// an error under [`OnUnknownLanguage::Fail`]; under
    /// [`OnUnknownLanguage::FallbackPlaintext`] the set's plain text syntax
    /// takes its place.
    pub fn with_registries(
        set: SyntaxSet,
        themes: &ThemeSet,
        language: &str,
        theme: &str,
        policy: OnUnknownLanguage,
    ) -> (r: Result<Projector, ConstructionError>)
        ensures
            built(r) == resolve(set, *themes, language@, theme@, policy),
    {
        let theme = match theme_by_name(themes, theme) {
            Some(t) => t,
            None => {
                return Err(ConstructionError::UnknownTheme);
            },
        };
        let fallback = match foreground_of(&theme) {
            Some(c) => c,
            None => Rgb { r: 0, g: 0, b: 0 },
        };
        match find_syntax_by_extension(&set, language) {
            Some(syntax) => {
                return Ok(Projector { syntax_set: set, syntax, theme, fallback, plaintext: false });
            },
            None => {},
        }
        match policy {
            OnUnknownLanguage::Fail => Err(ConstructionError::UnknownLanguage),
            OnUnknownLanguage::FallbackPlaintext => {
                match find_syntax_by_name(&set, "Plain Text") {
                    Some(syntax) => Ok(
                        Projector { syntax_set: set, syntax, theme, fallback, plaintext: true },
                    ),
                    None => Err(ConstructionError::UnknownLanguage),
                }
            },
        }
    }

    /// Builds a projector from the syntaxes and themes that ship with syntect,
    /// under the given policy for a language they do not know.
    pub fn with_policy(language: &str, theme: &str, policy: OnUnknownLanguage) -> (r: Result<
        Projector,
        ConstructionError,
    >)
        ensures
            exists|set: SyntaxSet, themes: ThemeSet|
                built(r) == #[trigger] resolve(set, themes, language@, theme@, policy),
    {
        let set = bundled_syntaxes();
        let themes = bundled_themes();
        Projector::with_registries(set, &themes, language, theme, policy)
    }

    /// Builds a projector from the syntaxes and themes that ship with syntect.
    /// A language they do not know is an error.
    pub fn new(language: &str, theme: &str) -> (r: Result<Projector, ConstructionError>)
        ensures
            exists|set: SyntaxSet, themes: ThemeSet|
                built(r) == #[trigger] resolve(
                    set,
                    themes,
                    language@,
                    theme@,
                    OnUnknownLanguage::Fail,
                ),
    {
        Projector::with_policy(language, theme, OnUnknownLanguage::Fail)
    }

    /// Whether the plain text syntax stands in for an unknown language.
    pub fn uses_plaintext(&self) -> (yes: bool)
        ensures
            yes == self@.plaintext,
    {
        self.plaintext
    }

    /// The colour of a line that the tokenizer could not colour.
    pub fn fallback_color(&self) -> (c: Rgb)
        ensures
            c == self@.fallback,
    {
        self.fallback
    }

    /// One pass over `text`: its lines in order, each as its runs.
    ///
    /// The runs of a line are the tokenizer's where they spell the line, and
    /// else the line as one run in the fallback colour. So the runs of all the
    /// lines, read in order, spell `text`, line feeds included.
    pub fn project(&self, text: &str) -> (lines: Vec<Vec<StyledRun>>)
        ensures
            lines.deep_view() == self@.projection(text@),
            lines.len() == split_lines(text@).len(),
            forall|i: int|
                0 <= i < lines.len() ==> spelled(#[trigger] lines.deep_view()[i]) == split_lines(
                    text@,
                )[i],
            spelled_lines(lines.deep_view()) == text@,
    {
        proof {
            use_type_invariant(self);
        }
        let source = split_lines_of(text);
        let ghost cut = split_lines(text@);
        let ghost start = fresh_tokenizer(self.syntax, self.theme);
        let mut tokenizer = start_tokenizer(&self.syntax, &self.theme);
        let mut out: Vec<Vec<StyledRun>> = Vec::new();
        let mut i: usize = 0;
        proof {
            assert(cut.take(0) == Seq::<Seq<char>>::empty());
        }
        while i < source.len()
            invariant
                i <= source.len(),
                source.deep_view() == cut,
                out.len() == i,
                tokenizer == tokenizer_after(start, self.syntax_set, cut.take(i as int)),
                start == fresh_tokenizer(self.syntax, self.theme),
                syntax_of_set(self.syntax, self.syntax_set),
                forall|j: int|
                    0 <= j < i ==> #[trigger] out.deep_view()[j] == line_runs_of(
                        cut[j],
                        answer(start, self.syntax_set, cut, j),
                        self.fallback,
                    ),
            decreases source.len() - i,
        {
            let line = source[i].as_str();
            proof {
                assert(source.deep_view()[i as int] == source[i as int]@);
                assert(cut.take(i + 1).drop_last() == cut.take(i as int));
                assert(cut.take(i + 1).last() == cut[i as int]);
            }
            let outcome = match highlight_line(&mut tokenizer, line, &self.syntax_set) {
                Ok(runs) => Some(runs),
                Err(_) => None,
            };
            let runs = line_runs(line, outcome, self.fallback);
            let ghost before = out.deep_view();
            out.push(runs);
            proof {
                assert(out.deep_view()[i as int] == runs.deep_view());
                assert forall|j: int| 0 <= j < i implies #[trigger] out.deep_view()[j] == before[j] by {
                    assert(out.deep_view()[j] == out[j].deep_view());
                    assert(before[j] == out[j].deep_view());
                }
            }
            i += 1;
        }
        proof {
            assert(out.deep_view() == self@.projection(text@));
            lemma_projected_spells(start, self.syntax_set, cut, self.fallback);
            lemma_split_lines(text@);
        }
        out
    }
}

} // verus!
