use mineshaft::context::{ContextType, ContextWindow};
use mineshaft::utilities::{apply_action, change_context, empty, revert_context, FuncTyp, HostCommand};

#[test]
fn empty_action_does_nothing() {
    empty();
}

#[test]
fn fresh_window_starts_on_main_menu() {
    let window = ContextWindow::new();
    assert_eq!(window.curr_context, ContextType::MainMenu);
    assert_eq!(window.prev_context, ContextType::MainMenu);
}

#[test]
fn update_context_pushes_current_to_previous() {
    let mut window = ContextWindow::new();
    window.update_context(ContextType::GamePlay);
    assert_eq!(window.curr_context, ContextType::GamePlay);
    assert_eq!(window.prev_context, ContextType::MainMenu);
    window.update_context(ContextType::PauseMenu);
    assert_eq!(window.curr_context, ContextType::PauseMenu);
    assert_eq!(window.prev_context, ContextType::GamePlay);
}

#[test]
fn revert_twice_restores_the_window() {
    let mut window = ContextWindow::new();
    window.update_context(ContextType::SettingsMenu);
    let before = window;
    window.revert_context();
    assert_eq!(window.curr_context, ContextType::MainMenu);
    assert_eq!(window.prev_context, ContextType::SettingsMenu);
    window.revert_context();
    assert_eq!(window, before);
}

#[test]
fn change_context_navigates() {
    let window = ContextWindow::new();
    let updated = change_context(window, ContextType::CreditsMenu);
    assert_eq!(updated.curr_context, ContextType::CreditsMenu);
    assert_eq!(updated.prev_context, ContextType::MainMenu);
}

#[test]
fn revert_context_goes_back_one_screen() {
    let window = ContextWindow::new();
    let inside = change_context(window, ContextType::SettingsMenu);
    let deeper = change_context(inside, ContextType::SettingsAudio);
    let back = revert_context(deeper);
    assert_eq!(back.curr_context, ContextType::SettingsMenu);
    assert_eq!(back.prev_context, ContextType::SettingsAudio);
}

#[test]
fn apply_action_dispatches_each_variant() {
    let window = ContextWindow::new();

    let (after_quit, command) = apply_action(FuncTyp::Simple(HostCommand::Exit), window);
    assert_eq!(after_quit, window);
    assert_eq!(command, HostCommand::Exit);

    let (after_nav, command) = apply_action(FuncTyp::Context(ContextType::GamePlay), window);
    assert_eq!(after_nav.curr_context, ContextType::GamePlay);
    assert_eq!(after_nav.prev_context, ContextType::MainMenu);
    assert_eq!(command, HostCommand::Noop);

    let (after_back, command) = apply_action(FuncTyp::RevContext, after_nav);
    assert_eq!(after_back.curr_context, ContextType::MainMenu);
    assert_eq!(after_back.prev_context, ContextType::GamePlay);
    assert_eq!(command, HostCommand::Noop);
}
