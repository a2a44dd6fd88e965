//! What the shell does with its main window.

use crate::config::Platform;
use vstd::prelude::*;

verus! {

/// Something that happened to the main window.
#[derive(Clone, Copy, Debug, PartialEq, Eq, Structural)]
pub enum WindowEvent {
    /// The user asked to close the window.
    CloseRequested,
    /// Anything else.
    Other,
}

/// Something for the caller to do to the main window at startup.
#[derive(Clone, Copy, Debug, PartialEq, Eq, Structural)]
pub enum WindowAction {
    /// Give the window the translucent look of a sidebar. A failure to do
    /// so is ignored.
    ApplySidebarVibrancy,
    /// Show the window. A failure to do so ends the application.
    Show,
}

/// The exit code with which the application ends on a close request.
pub const EXIT_ON_CLOSE: i32 = 0;

/// What is done to the main window at startup on `platform`, in order.
pub open spec fn setup_actions(platform: Platform) -> Seq<WindowAction> {
    match platform {
        Platform::MacOs => seq![WindowAction::ApplySidebarVibrancy, WindowAction::Show],
        Platform::Other => Seq::empty(),
    }
}

/// What to do to the main window at startup.
pub fn window_setup(platform: Platform) -> (actions: Vec<WindowAction>)
    ensures
        actions@ == setup_actions(platform),
{
    let mut actions: Vec<WindowAction> = Vec::new();
    match platform {
        Platform::MacOs => {
            actions.push(WindowAction::ApplySidebarVibrancy);
            actions.push(WindowAction::Show);
        },
        Platform::Other => {},
    }
    assert(actions@ =~= setup_actions(platform));
    actions
}

/// Whether a window event ends the application, and with which code: a
/// close request ends it at once with `EXIT_ON_CLOSE`, whatever the
/// backend is doing; nothing else ends it.
pub fn exit_code_on(event: WindowEvent) -> (code: Option<i32>)
    ensures
        code == (match event {
            WindowEvent::CloseRequested => Some(EXIT_ON_CLOSE),
            WindowEvent::Other => None,
        }),
{
    match event {
        WindowEvent::CloseRequested => Some(EXIT_ON_CLOSE),
        WindowEvent::Other => None,
    }
}

} // verus!
