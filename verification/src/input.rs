//! What the input source can give when it is asked for a line.

use vstd::prelude::*;

verus! {

/// The text that invites the user to type.
pub const PROMPT: &'static str = "💬 You: ";

/// The text shown when the user interrupts or closes the input.
pub const FAREWELL: &'static str = "👋 Goodbye!";

/// What one request for a line gave.
#[derive(Clone, Debug, PartialEq, Eq)]
pub enum Reading {
    /// A line of text, which may be empty.
    Line(String),
    /// The user interrupted. This is the signal to stop, and no failure.
    Interrupted,
    /// The input came to its end. This is a signal to stop as well, and no
    /// failure either.
    Closed,
    /// The input source failed. Carries its description.
    Failed(String),
}

/// The model of a [`Reading`].
pub enum ReadingView {
    Line(Seq<char>),
    Interrupted,
    Closed,
    Failed(Seq<char>),
}

impl View for Reading {
    type V = ReadingView;

    open spec fn view(&self) -> ReadingView {
        match self {
            Reading::Line(text) => ReadingView::Line(text@),
            Reading::Interrupted => ReadingView::Interrupted,
            Reading::Closed => ReadingView::Closed,
            Reading::Failed(detail) => ReadingView::Failed(detail@),
        }
    }
}

} // verus!
