//! Types shared by the virtual device and the event listener.

use vstd::prelude::*;

verus! {

/// Identifier handed out by the callback registry.
pub type CallbackId = u64;

#[derive(Debug, Clone, Copy, PartialEq, Eq, Structural)]
pub enum MouseButton {
    Left,
    Right,
    Middle,
    Side,
    Extra,
    Forward,
    Back,
    Task,
}

#[derive(Debug, Clone, Copy, PartialEq, Eq, Structural)]
pub enum ScrollDirection {
    Up,
    Down,
    Left,
    Right,
}

/// A mouse event as delivered to hooked callbacks.
#[derive(Debug, Clone, Copy, PartialEq, Eq, Structural)]
pub enum MouseEvent {
    Press(MouseButton),
    Release(MouseButton),
    RelativeMove(i32, i32),
    Scroll(ScrollDirection),
}

/// The failures that the library's operations report.
#[derive(Debug, Clone, Copy, PartialEq, Eq, Structural)]
pub enum MouseError {
    /// A control or device file could not be opened.
    ResourceUnavailable,
    /// A kernel request or an event write did not complete as expected.
    ProtocolFailure,
    /// The operation has no meaning on this backend.
    Unsupported,
    /// No callback is registered under the given identifier.
    NotFound,
    /// A device pattern or link could not be resolved.
    DiscoveryFailure,
}

} // verus!
