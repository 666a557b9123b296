//! Coordination core of a hotkey-driven auto clicker: the event handler that
//! owns hotkey bindings, the live click configuration and the cancellation
//! handles of running click tasks, together with the decisions of the hotkey
//! message loop and of a click run.
use vstd::prelude::*;

pub mod channel;
pub mod click_task;
pub mod clicker;
pub mod events;
pub mod handler;
pub mod laws;
pub mod message_loop;

pub use events::{ClickType, Command, HotKeyRegisterError, HotkeyEvent};
pub use handler::{ClickJob, Config, HotkeyInfo, KeyboardEventHandler, Reaction, TaskStart};
pub use click_task::{ClickPlan, TaskEnd};
pub use clicker::MouseClicker;
pub use message_loop::{MessageLoop, OsRequest};
