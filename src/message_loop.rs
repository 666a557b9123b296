//! The decisions of the hotkey message loop. The loop itself, which talks to
//! the system, runs outside the library and asks these functions what to do.
use vstd::prelude::*;

use crate::channel::oneshot_send;
use crate::events::{Command, HotkeyEvent};

verus! {

/// What the system must be asked for a command before it can be completed.
#[derive(Clone, Copy, Debug, PartialEq, Eq, Structural)]
pub enum OsRequest {
    RegisterHotKey { id: i32, modifiers: u32, vk: u32 },
    UnregisterHotKey { id: i32 },
    Nothing,
}

/// The event that a command gives once the system answered `os_ok`.
pub open spec fn command_event(cmd: Command, os_ok: bool) -> Option<HotkeyEvent> {
    match cmd {
        Command::Register { id, click_type, .. } => if os_ok {
            Some(HotkeyEvent::Register { id, click_type })
        } else {
            None
        },
        Command::Unregister { id, .. } => if os_ok {
            Some(HotkeyEvent::Unregister { id })
        } else {
            None
        },
        Command::ConfigChange { times, duration } => Some(
            HotkeyEvent::ConfigChange { times, duration },
        ),
        Command::ManualToggle { id, start } => Some(HotkeyEvent::ManualToggle { id, start }),
    }
}

/// Relies on windows_sys's WM_HOTKEY: the number of the message that reports
/// a pressed hotkey.
#[verifier::external_body]
fn hotkey_message() -> (r: u32)
    ensures
        r == 0x0312,
{
    windows_sys::Win32::UI::WindowsAndMessaging::WM_HOTKEY
}

/// The hotkey message loop.
pub struct MessageLoop;

impl MessageLoop {
    /// The system call that `cmd` needs before it can be completed.
    pub fn os_request(cmd: &Command) -> (r: OsRequest)
        ensures
            r == (match *cmd {
                Command::Register { id, modifiers, vk, .. } => OsRequest::RegisterHotKey {
                    id,
                    modifiers,
                    vk,
                },
                Command::Unregister { id, .. } => OsRequest::UnregisterHotKey { id },
                _ => OsRequest::Nothing,
            }),
    {
        match cmd {
            Command::Register { id, modifiers, vk, .. } => OsRequest::RegisterHotKey {
                id: *id,
                modifiers: *modifiers,
                vk: *vk,
            },
            Command::Unregister { id, .. } => OsRequest::UnregisterHotKey { id: *id },
            _ => OsRequest::Nothing,
        }
    }

    /// Completes `cmd` once the system answered `os_ok` (ignored for commands
    /// that need no system call): acknowledges registration and removal with
    /// `os_ok`, and returns the event to hand to the event handler.
    pub fn complete(cmd: Command, os_ok: bool) -> (r: Option<HotkeyEvent>)
        ensures
            r == command_event(cmd, os_ok),
    {
        match cmd {
            Command::Register { id, click_type, tx, .. } => {
                oneshot_send(tx, os_ok);
                if os_ok {
                    Some(HotkeyEvent::Register { id, click_type })
                } else {
                    None
                }
            },
            Command::Unregister { id, tx } => {
                oneshot_send(tx, os_ok);
                if os_ok {
                    Some(HotkeyEvent::Unregister { id })
                } else {
                    None
                }
            },
            Command::ConfigChange { times, duration } => Some(
                HotkeyEvent::ConfigChange { times, duration },
            ),
            Command::ManualToggle { id, start } => Some(HotkeyEvent::ManualToggle { id, start }),
        }
    }

    /// Turns a message taken from the system queue into an event: a hotkey
    /// message carries the id in `wparam`; any other message is ignored.
    pub fn translate(message: u32, wparam: usize) -> (r: Option<HotkeyEvent>)
        ensures
            message == 0x0312 ==> r == Some(HotkeyEvent::HotKeyPressed { id: wparam as i32 }),
            message != 0x0312 ==> r == None::<HotkeyEvent>,
    {
        if message == hotkey_message() {
            Some(HotkeyEvent::HotKeyPressed { id: #[verifier::truncate] (wparam as i32) })
        } else {
            None
        }
    }
}

} // verus!
