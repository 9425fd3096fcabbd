//! Colours and coloured runs of text.

use vstd::prelude::*;

verus! {

/// A foreground colour: red, green and blue, one byte each.
#[derive(Clone, Copy, Debug, PartialEq, Eq, Structural)]
pub struct Rgb {
    pub r: u8,
    pub g: u8,
    pub b: u8,
}

/// A stretch of text in one colour.
#[derive(Clone, Debug, PartialEq, Eq)]
pub struct StyledRun {
    pub text: String,
    pub color: Rgb,
}

/// What a [`StyledRun`] holds, as a mathematical value.
pub ghost struct RunView {
    pub text: Seq<char>,
    pub color: Rgb,
}

impl View for StyledRun {
    type V = RunView;

    open spec fn view(&self) -> RunView {
        RunView { text: self.text@, color: self.color }
    }
}

impl DeepView for StyledRun {
    type V = RunView;

    open spec fn deep_view(&self) -> RunView {
        self@
    }
}

/// The text that `runs` spell when read one after the other.
pub open spec fn spelled(runs: Seq<RunView>) -> Seq<char> {
    runs.map_values(|r: RunView| r.text).flatten()
}

/// The text that the runs of all `lines` spell, line after line.
pub open spec fn spelled_lines(lines: Seq<Seq<RunView>>) -> Seq<char> {
    lines.map_values(|l: Seq<RunView>| spelled(l)).flatten()
}

impl Rgb {
    /// The colour with the given components.
    pub fn new(r: u8, g: u8, b: u8) -> (c: Rgb)
        ensures
            c == (Rgb { r, g, b }),
    {
        Rgb { r, g, b }
    }
}

} // verus!
