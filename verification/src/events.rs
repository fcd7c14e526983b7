//! Requests that the collaborators around the bridge exchange.

use vstd::prelude::*;

verus! {

/// What the tray menu can ask for.
#[derive(Clone, Copy, Debug, PartialEq, Eq, Structural)]
pub enum TrayMenuEvent {
    Quit,
    ToggleWindow,
}

/// What the window's event loop can be asked to do.
#[derive(Clone, Copy, Debug, PartialEq, Eq, Structural)]
pub enum RunnerEvent {
    Quit(),
    Redraw(),
    ShowWindow(),
    HideWindow(),
    DialogPushed(),
    DialogPopped(),
    ToggleUi(),
    EnterCaptureMode(),
    SetKbmCursorGrab(bool),
    OverlayStateChanged(bool),
}

} // verus!
