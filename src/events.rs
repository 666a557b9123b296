//! Requests into the core and notifications that flow through it.
use vstd::prelude::*;

verus! {

/// The pointer button that a click task presses.
#[derive(Clone, Copy, Debug, PartialEq, Eq, Structural)]
pub enum ClickType {
    Left,
    Right,
    Middle,
}

/// Failures reported to a caller of the request API.
#[derive(Clone, Copy, Debug, PartialEq, Eq, Structural)]
pub enum HotKeyRegisterError {
    /// The system declined the registration of this id.
    DuplicateRegister(i32),
    /// The system declined the removal of this id.
    NotRegistered(i32),
    /// The message loop went away before it answered.
    InternalError,
}

/// Notifications consumed by the event handler.
#[derive(Clone, Copy, Debug, PartialEq, Eq, Structural)]
pub enum HotkeyEvent {
    HotKeyPressed { id: i32 },
    Register { id: i32, click_type: ClickType },
    Unregister { id: i32 },
    ConfigChange { times: usize, duration: u64 },
    ManualToggle { id: i32, start: bool },
    TaskCompleted { id: i32 },
}

/// Requests sent by callers into the hotkey message loop. Registration and
/// removal carry the sender on which the loop acknowledges the outcome.
pub enum Command {
    Register {
        id: i32,
        modifiers: u32,
        vk: u32,
        click_type: ClickType,
        tx: tokio::sync::oneshot::Sender<bool>,
    },
    Unregister { id: i32, tx: tokio::sync::oneshot::Sender<bool> },
    ConfigChange { times: usize, duration: u64 },
    ManualToggle { id: i32, start: bool },
}

} // verus!
