//! The request API: commands built for the message loop, and the outcome a
//! caller sees from the loop's answer.
use vstd::prelude::*;

use crate::channel::oneshot_pair;
use crate::events::{ClickType, Command, HotKeyRegisterError};

verus! {

/// Entry points of the request API.
pub struct MouseClicker;

impl MouseClicker {
    /// A registration command and the receiver of its acknowledgment.
    pub fn register_command(id: i32, modifiers: u32, vk: u32, click_type: ClickType) -> (r: (
        Command,
        tokio::sync::oneshot::Receiver<bool>,
    ))
        ensures
            match r.0 {
                Command::Register { id: i, modifiers: m, vk: v, click_type: c, .. } => i == id
                    && m == modifiers && v == vk && c == click_type,
                _ => false,
            },
    {
        let (tx, rx) = oneshot_pair();
        (Command::Register { id, modifiers, vk, click_type, tx }, rx)
    }

    /// A removal command and the receiver of its acknowledgment.
    pub fn unregister_command(id: i32) -> (r: (Command, tokio::sync::oneshot::Receiver<bool>))
        ensures
            match r.0 {
                Command::Unregister { id: i, .. } => i == id,
                _ => false,
            },
    {
        let (tx, rx) = oneshot_pair();
        (Command::Unregister { id, tx }, rx)
    }

    /// The outcome of a registration from its acknowledgment: `None` when the
    /// loop dropped the channel unanswered.
    pub fn register_outcome(id: i32, ack: Option<bool>) -> (r: Result<(), HotKeyRegisterError>)
        ensures
            r == (match ack {
                None => Err(HotKeyRegisterError::InternalError),
                Some(false) => Err(HotKeyRegisterError::DuplicateRegister(id)),
                Some(true) => Ok::<(), HotKeyRegisterError>(()),
            }),
    {
        match ack {
            None => Err(HotKeyRegisterError::InternalError),
            Some(false) => Err(HotKeyRegisterError::DuplicateRegister(id)),
            Some(true) => Ok(()),
        }
    }

    /// The outcome of a removal from its acknowledgment: `None` when the loop
    /// dropped the channel unanswered.
    pub fn unregister_outcome(id: i32, ack: Option<bool>) -> (r: Result<(), HotKeyRegisterError>)
        ensures
            r == (match ack {
                None => Err(HotKeyRegisterError::InternalError),
                Some(false) => Err(HotKeyRegisterError::NotRegistered(id)),
                Some(true) => Ok::<(), HotKeyRegisterError>(()),
            }),
    {
        match ack {
            None => Err(HotKeyRegisterError::InternalError),
            Some(false) => Err(HotKeyRegisterError::NotRegistered(id)),
            Some(true) => Ok(()),
        }
    }

    /// The outcome of a command that needs no acknowledgment: it fails only
    /// when it could not be queued.
    pub fn send_outcome(sent: bool) -> (r: Result<(), HotKeyRegisterError>)
        ensures
            sent ==> r == Ok::<(), HotKeyRegisterError>(()),
            !sent ==> r == Err::<(), HotKeyRegisterError>(HotKeyRegisterError::InternalError),
    {
        if sent {
            Ok(())
        } else {
            Err(HotKeyRegisterError::InternalError)
        }
    }
}

} // verus!
