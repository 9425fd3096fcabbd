//! The editing widget's state: a buffer that the host edits in place, and the
//! projector that colours it.

use crate::projector::{built, resolve, ConstructionError, OnUnknownLanguage, Projector};
use crate::style::{spelled_lines, StyledRun};
use syntect::highlighting::ThemeSet;
use syntect::parsing::SyntaxSet;
use vstd::prelude::*;

verus! {

/// A code editor: the text, open to the host for editing, and its projector.
#[derive(Clone, Debug)]
pub struct CodeEditor {
    pub code: String,
    pub projector: Projector,
}

/// The projector of what a construction returned.
pub open spec fn editor_projector(r: Result<CodeEditor, ConstructionError>) -> Result<
    Projector,
    ConstructionError,
> {
    match r {
        Ok(e) => Ok(e.projector),
        Err(e) => Err(e),
    }
}

impl CodeEditor {
    /// An editor with an empty buffer, from a syntax set and a theme set.
    pub fn with_registries(
        set: SyntaxSet,
        themes: &ThemeSet,
        syntax_ext: &str,
        color_theme: &str,
        policy: OnUnknownLanguage,
    ) -> (r: Result<CodeEditor, ConstructionError>)
        ensures
            built(editor_projector(r)) == resolve(set, *themes, syntax_ext@, color_theme@, policy),
            r matches Ok(e) ==> e.code@ == Seq::<char>::empty(),
    {
        match Projector::with_registries(set, themes, syntax_ext, color_theme, policy) {
            Ok(projector) => Ok(CodeEditor { code: String::new(), projector }),
            Err(e) => Err(e),
        }
    }

    /// An editor with an empty buffer, from the syntaxes and themes that ship
    /// with syntect, under the given policy for a language they do not know.
    pub fn with_policy(syntax_ext: &str, color_theme: &str, policy: OnUnknownLanguage) -> (r:
        Result<CodeEditor, ConstructionError>)
        ensures
            exists|set: SyntaxSet, themes: ThemeSet|
                built(editor_projector(r)) == #[trigger] resolve(
                    set,
                    themes,
                    syntax_ext@,
                    color_theme@,
                    policy,
                ),
            r matches Ok(e) ==> e.code@ == Seq::<char>::empty(),
    {
        match Projector::with_policy(syntax_ext, color_theme, policy) {
            Ok(projector) => Ok(CodeEditor { code: String::new(), projector }),
            Err(e) => Err(e),
        }
    }

    /// An editor with an empty buffer, from the syntaxes and themes that ship
    /// with syntect. A language or a theme they do not know is an error.
    pub fn new(syntax_ext: &str, color_theme: &str) -> (r: Result<CodeEditor, ConstructionError>)
        ensures
            exists|set: SyntaxSet, themes: ThemeSet|
                built(editor_projector(r)) == #[trigger] resolve(
                    set,
                    themes,
                    syntax_ext@,
                    color_theme@,
                    OnUnknownLanguage::Fail,
                ),
            r matches Ok(e) ==> e.code@ == Seq::<char>::empty(),
    {
        CodeEditor::with_policy(syntax_ext, color_theme, OnUnknownLanguage::Fail)
    }

    /// An editor for Rust source in the theme `base16-ocean.dark`.
    pub fn with_defaults() -> (r: Result<CodeEditor, ConstructionError>)
        ensures
            exists|set: SyntaxSet, themes: ThemeSet|
                built(editor_projector(r)) == #[trigger] resolve(
                    set,
                    themes,
                    "rs"@,
                    "base16-ocean.dark"@,
                    OnUnknownLanguage::Fail,
                ),
            r matches Ok(e) ==> e.code@ == Seq::<char>::empty(),
    {
        CodeEditor::new("rs", "base16-ocean.dark")
    }

    /// The buffer as lines of coloured runs, from one pass over all of it.
    pub fn layout(&self) -> (lines: Vec<Vec<StyledRun>>)
        ensures
            lines.deep_view() == self.projector@.projection(self.code@),
            spelled_lines(lines.deep_view()) == self.code@,
    {
        self.projector.project(self.code.as_str())
    }
}

} // verus!
