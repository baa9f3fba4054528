//! Which menu or gameplay view is active, plus the immediately-previous one,
//! so that a single-level "back" action can be supported.

use vstd::prelude::*;

verus! {

/// The closed set of screens the host can show. The settings screen has four
/// sub-screens; there is no deeper nesting.
#[derive(Copy, Clone, PartialEq, Eq, Structural, Debug)]
pub enum ContextType {
    MainMenu,
    SettingsMenu,
    SettingsGraphics,
    SettingsAudio,
    SettingsControls,
    SettingsGeneral,
    CreditsMenu,
    PauseMenu,
    GamePlay,
}

/// The active screen together with the previous one. The history is one
/// level deep by design: `update_context` pushes the current screen into
/// `prev_context`, and a "back" action swaps the two.
#[derive(Clone, Copy, PartialEq, Eq, Structural, Debug)]
pub struct ContextWindow {
    pub curr_context: ContextType,
    pub prev_context: ContextType,
}

impl ContextWindow {
    /// A fresh session starts on the main menu, with the main menu also as
    /// the (degenerate) previous screen.
    pub fn new() -> (window: ContextWindow)
        ensures
            window.curr_context == ContextType::MainMenu,
            window.prev_context == ContextType::MainMenu,
    {
        ContextWindow {
            curr_context: ContextType::MainMenu,
            prev_context: ContextType::MainMenu,
        }
    }

    /// Navigate to `new_context`, remembering the screen we came from.
    pub fn update_context(&mut self, new_context: ContextType)
        ensures
            final(self).curr_context == new_context,
            final(self).prev_context == old(self).curr_context,
    {
        self.prev_context = self.curr_context;
        self.curr_context = new_context;
    }

    /// Go back one step by swapping the current and previous screens.
    /// Applying it twice returns to the starting state.
    pub fn revert_context(&mut self)
        ensures
            final(self).curr_context == old(self).prev_context,
            final(self).prev_context == old(self).curr_context,
    {
        let swap = self.curr_context;
        self.curr_context = self.prev_context;
        self.prev_context = swap;
    }
}

} // verus!
