//! The primitive operations a display session asks its owner to perform.

use vstd::prelude::*;

verus! {

/// One primitive operation on the lines that lead to the display.
///
/// The session never touches hardware itself. It answers every request with
/// the list of actions that carry it out, in the order in which they must be
/// performed; whoever owns the bus and the two control lines performs them.
#[derive(Debug, PartialEq, Eq)]
pub enum Action {
    /// Drive the reset line high.
    ResetHigh,
    /// Drive the reset line low.
    ResetLow,
    /// Drive the data/command line low: what is written next is a command.
    DcLow,
    /// Drive the data/command line high: what is written next is data.
    DcHigh,
    /// Write these bytes to the bus, in this order, in one transfer.
    Write(Vec<u8>),
    /// Block for at least this many milliseconds.
    DelayMs(u8),
}

/// The mathematical form of an [`Action`].
pub enum ActionView {
    ResetHigh,
    ResetLow,
    DcLow,
    DcHigh,
    Write(Seq<u8>),
    DelayMs(u8),
}

impl View for Action {
    type V = ActionView;

    open spec fn view(&self) -> ActionView {
        match self {
            Action::ResetHigh => ActionView::ResetHigh,
            Action::ResetLow => ActionView::ResetLow,
            Action::DcLow => ActionView::DcLow,
            Action::DcHigh => ActionView::DcHigh,
            Action::Write(bytes) => ActionView::Write(bytes@),
            Action::DelayMs(ms) => ActionView::DelayMs(*ms),
        }
    }
}

impl DeepView for Action {
    type V = ActionView;

    open spec fn deep_view(&self) -> ActionView {
        self@
    }
}

} // verus!
