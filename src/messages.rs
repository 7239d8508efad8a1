use vstd::prelude::*;

verus! {

/// A request to the display side, sent by the controller and consumed once by
/// the update relay.
#[derive(Debug, PartialEq, Eq)]
pub enum UIMessage<S> {
    /// Redraw the status views from this shared snapshot handle.
    UpdateStatus(S),
    /// Close the display.
    Quit,
}

/// A request to the controller, sent by an operator input handler.
#[derive(Debug, Clone, Copy, PartialEq, Eq)]
pub enum ControllerMessage {
    /// Stop the dashboard.
    Shutdown,
}

} // verus!
