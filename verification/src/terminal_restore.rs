//! Bringing the terminal back to the state that the shell expects.

use vstd::prelude::*;

verus! {

/// One step of restoring the terminal.
#[derive(Debug, Clone, Copy, PartialEq, Eq, Structural)]
pub enum RestoreStep {
    DisableRawMode,
    DisableMouseCapture,
    LeaveAlternateScreen,
    ShowCursor,
    Flush,
}

/// The steps of restoring the terminal, in order. A failure of one does not keep the others from
/// being taken.
pub open spec fn restore_steps() -> Seq<RestoreStep> {
    seq![
        RestoreStep::DisableRawMode,
        RestoreStep::DisableMouseCapture,
        RestoreStep::LeaveAlternateScreen,
        RestoreStep::ShowCursor,
        RestoreStep::Flush,
    ]
}

/// The steps to take, given whether the terminal was restored already. From then on it was.
pub fn restore_terminal(restored: &mut bool) -> (r: Vec<RestoreStep>)
    ensures
        *final(restored),
        r@ == if *old(restored) {
            Seq::empty()
        } else {
            restore_steps()
        },
{
    let mut r: Vec<RestoreStep> = Vec::new();
    if *restored {
        return r;
    }
    *restored = true;
    r.push(RestoreStep::DisableRawMode);
    r.push(RestoreStep::DisableMouseCapture);
    r.push(RestoreStep::LeaveAlternateScreen);
    r.push(RestoreStep::ShowCursor);
    r.push(RestoreStep::Flush);
    assert(r@ =~= restore_steps());
    r
}

/// Stands for a terminal that has to be restored at the end.
#[derive(Debug, PartialEq, Eq)]
pub struct TerminalRestoreGuard;

impl TerminalRestoreGuard {
    /// The guard of a terminal that was just taken over.
    pub fn new() -> (r: Self)
        ensures
            r == TerminalRestoreGuard,
    {
        TerminalRestoreGuard
    }
}

} // verus!
