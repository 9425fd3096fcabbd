//! The syntect calls that the projection rests on.
//!
//! Nothing in this file is proved: each function states what the syntect
//! source shows of the call it makes, and the rest of the library is verified
//! against those statements.

use crate::style::{Rgb, RunView, StyledRun};
use syntect::easy::HighlightLines;
use syntect::highlighting::{Theme, ThemeSet};
use syntect::parsing::{SyntaxReference, SyntaxSet};
use vstd::prelude::*;

verus! {

/// syntect's set of syntax definitions, opaque to the proofs.
#[verifier::external_type_specification]
#[verifier::external_body]
pub struct ExSyntaxSet(SyntaxSet);

/// One syntax definition of a set, opaque to the proofs.
#[verifier::external_type_specification]
#[verifier::external_body]
pub struct ExSyntaxReference(SyntaxReference);

/// syntect's set of themes, opaque to the proofs.
#[verifier::external_type_specification]
#[verifier::external_body]
pub struct ExThemeSet(ThemeSet);

/// One theme, opaque to the proofs.
#[verifier::external_type_specification]
#[verifier::external_body]
pub struct ExTheme(Theme);

/// syntect's line tokenizer with the state it keeps between lines, opaque
/// to the proofs.
#[verifier::external_type_specification]
#[verifier::external_body]
pub struct ExHighlightLines<'a>(HighlightLines<'a>);

/// syntect's error, opaque to the proofs.
#[verifier::external_type_specification]
#[verifier::external_body]
pub struct ExError(syntect::Error);

/// The themes that a theme set holds, by name.
pub uninterp spec fn themes_of(themes: ThemeSet) -> Map<Seq<char>, Theme>;

/// `c`, or its lower-case form where it is one of the letters `A` to `Z`.
pub open spec fn ascii_lower(c: char) -> char {
    if 'A' <= c && c <= 'Z' {
        ((c as u8) + 32) as char
    } else {
        c
    }
}

/// `s` with each of the letters `A` to `Z` in lower case.
pub open spec fn ascii_lowered(s: Seq<char>) -> Seq<char> {
    s.map_values(|c: char| ascii_lower(c))
}

/// The syntax that a syntax set gives for a file extension, written without
/// upper-case ASCII letters, if it gives any.
pub uninterp spec fn syntax_for_extension(set: SyntaxSet, extension: Seq<char>) -> Option<
    SyntaxReference,
>;

/// The syntax that a syntax set gives for a syntax name, if any.
pub uninterp spec fn syntax_named(set: SyntaxSet, name: Seq<char>) -> Option<SyntaxReference>;

/// The colour that a theme sets for text without a rule, if it sets one.
pub uninterp spec fn theme_foreground(theme: Theme) -> Option<Rgb>;

/// The tokenizer at the start of a text in `syntax`, colouring by `theme`.
pub uninterp spec fn fresh_tokenizer(syntax: SyntaxReference, theme: Theme) -> HighlightLines<
    'static,
>;

/// What one line does to a tokenizer: the tokenizer after the line, and the
/// runs it gave for the line, or `None` where it failed on it.
pub uninterp spec fn highlight_step(
    tokenizer: HighlightLines<'_>,
    line: Seq<char>,
    set: SyntaxSet,
) -> (HighlightLines<'_>, Option<Seq<RunView>>);

/// The tokenizer after `lines` have gone through it in their order.
pub open spec fn tokenizer_after(
    start: HighlightLines<'_>,
    set: SyntaxSet,
    lines: Seq<Seq<char>>,
) -> HighlightLines<'_>
    decreases lines.len(),
{
    if lines.len() == 0 {
        start
    } else {
        highlight_step(tokenizer_after(start, set, lines.drop_last()), lines.last(), set).0
    }
}

/// Whether `syntax` is one that `set` gives, for some extension or name.
pub open spec fn syntax_of_set(syntax: SyntaxReference, set: SyntaxSet) -> bool {
    ||| exists|extension: Seq<char>| #[trigger]
        syntax_for_extension(set, extension) == Some(syntax)
    ||| exists|name: Seq<char>| #[trigger] syntax_named(set, name) == Some(syntax)
}

/// Whether `tokenizer` was started on a syntax of `set` and has since seen
/// lines with that set only. syntect asks this of every line.
pub open spec fn tokenizer_fits(tokenizer: HighlightLines<'_>, set: SyntaxSet) -> bool {
    exists|syntax: SyntaxReference, theme: Theme, lines: Seq<Seq<char>>|
        syntax_of_set(syntax, set) && tokenizer == #[trigger] tokenizer_after(
            fresh_tokenizer(syntax, theme),
            set,
            lines,
        )
}

/// The syntax sets that ship with syntect, for lines that keep their line
/// feed.
///
/// Trusted: `SyntaxSet::load_defaults_newlines` unpacks the bundled
/// definitions; nothing is claimed of what they hold.
#[verifier::external_body]
pub(crate) fn bundled_syntaxes() -> SyntaxSet {
    SyntaxSet::load_defaults_newlines()
}

/// The themes that ship with syntect.
///
/// Trusted: `ThemeSet::load_defaults` unpacks the bundled themes; nothing is
/// claimed of what they hold.
#[verifier::external_body]
pub(crate) fn bundled_themes() -> ThemeSet {
    ThemeSet::load_defaults()
}

/// Trusted: the copy of a syntax set holds what the set holds.
pub assume_specification[ <SyntaxSet as Clone>::clone ](set: &SyntaxSet) -> (copy: SyntaxSet)
    ensures
        copy == *set,
;

/// Trusted: the copy of a syntax is that syntax.
pub assume_specification[ <SyntaxReference as Clone>::clone ](syntax: &SyntaxReference) -> (copy:
    SyntaxReference)
    ensures
        copy == *syntax,
;

/// Trusted: the copy of a theme is that theme.
pub assume_specification[ <Theme as Clone>::clone ](theme: &Theme) -> (copy: Theme)
    ensures
        copy == *theme,
;

/// Looks a theme up by its name.
///
/// Trusted: `ThemeSet::themes` is a map from names to themes, and `get` on it
/// gives the theme under `name` where the map has that name, else nothing.
#[verifier::external_body]
pub(crate) fn theme_by_name(themes: &ThemeSet, name: &str) -> (found: Option<Theme>)
    ensures
        found == (if themes_of(*themes).dom().contains(name@) {
            Some(themes_of(*themes)[name@])
        } else {
            None
        }),
{
    themes.themes.get(name).cloned()
}

/// Looks a syntax up by a file extension.
///
/// Trusted: `SyntaxSet::find_syntax_by_extension` searches the set's syntaxes
/// and depends on the set and the extension alone. It compares extensions
/// with `eq_ignore_ascii_case`, so the case of the letters `A` to `Z` in
/// `extension` makes no difference.
#[verifier::external_body]
pub(crate) fn find_syntax_by_extension(set: &SyntaxSet, extension: &str) -> (found: Option<
    SyntaxReference,
>)
    ensures
        found == syntax_for_extension(*set, ascii_lowered(extension@)),
{
    set.find_syntax_by_extension(extension).cloned()
}

/// Looks a syntax up by its name.
///
/// Trusted: `SyntaxSet::find_syntax_by_name` searches the set's syntaxes and
/// depends on the set and the name alone.
#[verifier::external_body]
pub(crate) fn find_syntax_by_name(set: &SyntaxSet, name: &str) -> (found: Option<SyntaxReference>)
    ensures
        found == syntax_named(*set, name@),
{
    set.find_syntax_by_name(name).cloned()
}

/// The colour a theme gives to text that no rule matches.
///
/// Trusted: reads the field `settings.foreground` of the theme and copies its
/// red, green and blue.
#[verifier::external_body]
pub(crate) fn foreground_of(theme: &Theme) -> (color: Option<Rgb>)
    ensures
        color == theme_foreground(*theme),
{
    theme.settings.foreground.map(|c| Rgb { r: c.r, g: c.g, b: c.b })
}

/// A tokenizer at the start of a text.
///
/// Trusted: `HighlightLines::new` builds its state from the syntax and the
/// theme alone.
#[verifier::external_body]
pub(crate) fn start_tokenizer<'a>(syntax: &SyntaxReference, theme: &'a Theme) -> (tokenizer:
    HighlightLines<'a>)
    ensures
        tokenizer == fresh_tokenizer(*syntax, *theme),
{
    HighlightLines::new(syntax, theme)
}

/// Hands one line to the tokenizer and copies out what it gives: for each
/// piece its text and the red, green and blue of its foreground.
///
/// Trusted: `HighlightLines::highlight_line` depends on the tokenizer, the
/// line and the set alone. Its documentation asks for the set that the
/// tokenizer's syntax came from, which `requires` holds on to. That the pieces
/// spell the line is not claimed.
#[verifier::external_body]
pub(crate) fn highlight_line(tokenizer: &mut HighlightLines<'_>, line: &str, set: &SyntaxSet) -> (runs:
    Result<Vec<StyledRun>, syntect::Error>)
    requires
        tokenizer_fits(*old(tokenizer), *set),
    ensures
        *final(tokenizer) == highlight_step(*old(tokenizer), line@, *set).0,
        (match runs {
            Ok(v) => Some(v.deep_view()),
            Err(_) => None,
        }) == highlight_step(*old(tokenizer), line@, *set).1,
{
    let pieces = tokenizer.highlight_line(line, set)?;
    Ok(
        pieces.into_iter().map(
            |(style, text)|
                StyledRun {
                    text: text.to_string(),
                    color: Rgb { r: style.foreground.r, g: style.foreground.g, b: style.foreground.b },
                },
        ).collect(),
    )
}

} // verus!
