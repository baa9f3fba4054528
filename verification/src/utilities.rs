//! Menu actions as plain data. A button's behaviour is a closed set of
//! variants dispatched by matching, and an effect on the host (such as
//! quitting) is returned as a command rather than performed here, so the
//! navigation logic stays host-agnostic.

use vstd::prelude::*;
use crate::context::{ContextType, ContextWindow};

verus! {

/// An effect that only the host can perform. The core never executes these;
/// it hands them back to the caller of the menu layer.
#[derive(Clone, Copy, PartialEq, Eq, Structural, Debug)]
pub enum HostCommand {
    /// End the process (the "Quit" button).
    Exit,
    /// Do nothing (a placeholder button).
    Noop,
}

/// What pressing a button does: a host effect, navigation to a given screen,
/// or navigation back to the previous screen.
#[derive(Clone, Copy, PartialEq, Eq, Structural, Debug)]
pub enum FuncTyp {
    Simple(HostCommand),
    Context(ContextType),
    RevContext,
}

/// A placeholder action body: leaves everything as it is.
pub fn empty() {
}

/// Navigate to `new_context`, returning the updated window; the screen we
/// leave becomes the previous one.
pub fn change_context(context: ContextWindow, new_context: ContextType) -> (updated: ContextWindow)
    ensures
        updated.curr_context == new_context,
        updated.prev_context == context.curr_context,
{
    let mut new_ctx_win = context;

    new_ctx_win.update_context(new_context);

    new_ctx_win
}

/// Go back one screen, returning the updated window; current and previous
/// screens swap, so reverting twice restores the input.
pub fn revert_context(context: ContextWindow) -> (updated: ContextWindow)
    ensures
        updated.curr_context == context.prev_context,
        updated.prev_context == context.curr_context,
{
    let mut new_ctx_win = context;

    new_ctx_win.revert_context();

    new_ctx_win
}

/// Dispatch one menu action: navigation updates the window, a host effect
/// leaves it untouched and is returned for the host to run.
pub fn apply_action(action: FuncTyp, context: ContextWindow) -> (outcome: (ContextWindow, HostCommand))
    ensures
        action matches FuncTyp::Simple(cmd) ==> outcome.0 == context && outcome.1 == cmd,
        action matches FuncTyp::Context(target) ==> {
            &&& outcome.0.curr_context == target
            &&& outcome.0.prev_context == context.curr_context
            &&& outcome.1 == HostCommand::Noop
        },
        action matches FuncTyp::RevContext ==> {
            &&& outcome.0.curr_context == context.prev_context
            &&& outcome.0.prev_context == context.curr_context
            &&& outcome.1 == HostCommand::Noop
        },
{
    match action {
        FuncTyp::Simple(cmd) => (context, cmd),
        FuncTyp::Context(target) => (change_context(context, target), HostCommand::Noop),
        FuncTyp::RevContext => (revert_context(context), HostCommand::Noop),
    }
}

} // verus!
