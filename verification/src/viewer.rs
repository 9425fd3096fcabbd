//! The read-only widget's state: a buffer that is replaced as a whole, the
//! projector that colours it, and the line numbers beside it.

use crate::gutter::{gutter, label};
use crate::lines::split_lines;
use crate::projector::{built, resolve, ConstructionError, OnUnknownLanguage, Projector};
use crate::style::{spelled_lines, StyledRun};
use syntect::highlighting::ThemeSet;
use syntect::parsing::SyntaxSet;
use vstd::prelude::*;

verus! {

/// A code viewer: the text it shows and its projector.
#[derive(Clone, Debug)]
pub struct CodeViewer {
    pub code: String,
    pub projector: Projector,
}

/// A view with line numbers: the lines of a pass, and for each its number
/// in the gutter.
#[derive(Clone, Debug)]
pub struct NumberedLayout {
    pub labels: Vec<String>,
    pub lines: Vec<Vec<StyledRun>>,
}

/// The projector of what a construction returned.
pub open spec fn viewer_projector(r: Result<CodeViewer, ConstructionError>) -> Result<
    Projector,
    ConstructionError,
> {
    match r {
        Ok(v) => Ok(v.projector),
        Err(e) => Err(e),
    }
}

impl CodeViewer {
    /// A viewer with an empty buffer, from a syntax set and a theme set.
    pub fn with_registries(
        set: SyntaxSet,
        themes: &ThemeSet,
        syntax_ext: &str,
        color_theme: &str,
        policy: OnUnknownLanguage,
    ) -> (r: Result<CodeViewer, ConstructionError>)
        ensures
            built(viewer_projector(r)) == resolve(set, *themes, syntax_ext@, color_theme@, policy),
            r matches Ok(v) ==> v.code@ == Seq::<char>::empty(),
    {
        match Projector::with_registries(set, themes, syntax_ext, color_theme, policy) {
            Ok(projector) => Ok(CodeViewer { code: String::new(), projector }),
            Err(e) => Err(e),
        }
    }

    /// A viewer with an empty buffer, from the syntaxes and themes that ship
    /// with syntect, under the given policy for a language they do not know.
    pub fn with_policy(syntax_ext: &str, color_theme: &str, policy: OnUnknownLanguage) -> (r:
        Result<CodeViewer, ConstructionError>)
        ensures
            exists|set: SyntaxSet, themes: ThemeSet|
                built(viewer_projector(r)) == #[trigger] resolve(
                    set,
                    themes,
                    syntax_ext@,
                    color_theme@,
                    policy,
                ),
            r matches Ok(v) ==> v.code@ == Seq::<char>::empty(),
    {
        match Projector::with_policy(syntax_ext, color_theme, policy) {
            Ok(projector) => Ok(CodeViewer { code: String::new(), projector }),
            Err(e) => Err(e),
        }
    }

    /// A viewer with an empty buffer, from the syntaxes and themes that ship
    /// with syntect. A language or a theme they do not know is an error.
    pub fn new(syntax_ext: &str, color_theme: &str) -> (r: Result<CodeViewer, ConstructionError>)
        ensures
            exists|set: SyntaxSet, themes: ThemeSet|
                built(viewer_projector(r)) == #[trigger] resolve(
                    set,
                    themes,
                    syntax_ext@,
                    color_theme@,
                    OnUnknownLanguage::Fail,
                ),
            r matches Ok(v) ==> v.code@ == Seq::<char>::empty(),
    {
        CodeViewer::with_policy(syntax_ext, color_theme, OnUnknownLanguage::Fail)
    }

    /// A viewer for Rust source in the theme `base16-ocean.dark`.
    pub fn with_defaults() -> (r: Result<CodeViewer, ConstructionError>)
        ensures
            exists|set: SyntaxSet, themes: ThemeSet|
                built(viewer_projector(r)) == #[trigger] resolve(
                    set,
                    themes,
                    "rs"@,
                    "base16-ocean.dark"@,
                    OnUnknownLanguage::Fail,
                ),
            r matches Ok(v) ==> v.code@ == Seq::<char>::empty(),
    {
        CodeViewer::new("rs", "base16-ocean.dark")
    }

    /// The text on show.
    pub fn get_text(&self) -> (text: &str)
        ensures
            text@ == self.code@,
    {
        self.code.as_str()
    }

    /// Replaces the text on show. The next pass starts from a new tokenizer,
    /// as every pass does, so nothing of the old text is carried over.
    pub fn set_text(&mut self, text: String)
        ensures
            final(self).code == text,
            final(self).projector == old(self).projector,
    {
        self.code = text;
    }

    /// The buffer as lines of coloured runs, from one pass over all of it.
    pub fn layout(&self) -> (lines: Vec<Vec<StyledRun>>)
        ensures
            lines.deep_view() == self.projector@.projection(self.code@),
            spelled_lines(lines.deep_view()) == self.code@,
    {
        self.projector.project(self.code.as_str())
    }

    /// The buffer as numbered lines: the lines of [`CodeViewer::layout`], and
    /// for each its number, counted from one, in a gutter of `width`
    /// characters.
    pub fn layout_numbered(&self, width: usize) -> (view: NumberedLayout)
        ensures
            view.lines.deep_view() == self.projector@.projection(self.code@),
            spelled_lines(view.lines.deep_view()) == self.code@,
            view.labels.len() == view.lines.len(),
            view.lines.len() == split_lines(self.code@).len(),
            forall|i: int|
                0 <= i < view.labels.len() ==> (#[trigger] view.labels[i])@ == label(
                    (i + 1) as nat,
                    width as nat,
                ),
    {
        let lines = self.projector.project(self.code.as_str());
        let labels = gutter(lines.len(), width);
        NumberedLayout { labels, lines }
    }
}

} // verus!
