//! The platform shell's message handling, as decisions: what one window
//! message means for the game (queue a key event, terminate, or leave it
//! to the platform's default handler), and the shell's two-state life
//! cycle, which the destroy notification ends.

use vstd::prelude::*;

use crate::input::KeyBindings;
use crate::input::KeyEvent;
use crate::input::spec_vkey_to_doom_key;
use crate::input::vkey_to_doom_key;

verus! {

/// Window messages the shell intercepts, as the platform defines them.
pub const WM_DESTROY: u32 = 0x0002;

pub const WM_KEYDOWN: u32 = 0x0100;

pub const WM_KEYUP: u32 = 0x0101;

/// What the shell does with one window message.
#[derive(Clone, Copy, Debug, PartialEq, Eq, Structural)]
pub enum MessageAction {
    /// Queue this key event for the engine, then let the default handler run.
    PushKey(KeyEvent),
    /// Signal the message loop to quit and report the message as handled.
    Quit,
    /// Leave the message entirely to the default handler.
    NotHandled,
}

/// The decision for one message: key-down and key-up messages queue a
/// press or release of the mapped key and are dropped silently when
/// the key maps to nothing; the destroy notification quits; all
/// else is not handled.
pub open spec fn spec_message_action(b: KeyBindings, message: u32, wparam: usize) -> MessageAction {
    if message == WM_KEYDOWN {
        match spec_vkey_to_doom_key(b, wparam) {
            Some(key) => MessageAction::PushKey(KeyEvent { key, pressed: true }),
            None => MessageAction::NotHandled,
        }
    } else if message == WM_KEYUP {
        match spec_vkey_to_doom_key(b, wparam) {
            Some(key) => MessageAction::PushKey(KeyEvent { key, pressed: false }),
            None => MessageAction::NotHandled,
        }
    } else if message == WM_DESTROY {
        MessageAction::Quit
    } else {
        MessageAction::NotHandled
    }
}

/// Decide what the shell does with one window message, given the engine's
/// current key bindings and the message's key parameter.
pub fn wnd_proc_message_handler(bindings: &KeyBindings, message: u32, wparam: usize) -> (r:
    MessageAction)
    ensures
        r == spec_message_action(*bindings, message, wparam),
{
    match message {
        WM_KEYDOWN => {
            match vkey_to_doom_key(bindings, wparam) {
                Some(key) => MessageAction::PushKey(KeyEvent { key, pressed: true }),
                None => MessageAction::NotHandled,
            }
        },
        WM_KEYUP => {
            match vkey_to_doom_key(bindings, wparam) {
                Some(key) => MessageAction::PushKey(KeyEvent { key, pressed: false }),
                None => MessageAction::NotHandled,
            }
        },
        WM_DESTROY => MessageAction::Quit,
        _ => MessageAction::NotHandled,
    }
}

/// The shell's life cycle: running until the destroy notification, then
/// terminated for good.
#[derive(Clone, Copy, Debug, PartialEq, Eq, Structural)]
pub enum ShellState {
    Running,
    Terminated,
}

/// Advance the shell's state by one message: only the destroy
/// notification terminates it, and a terminated shell stays terminated.
pub fn next_state(state: ShellState, message: u32) -> (r: ShellState)
    ensures
        r is Terminated <==> (state is Terminated || message == WM_DESTROY),
{
    match state {
        ShellState::Terminated => ShellState::Terminated,
        ShellState::Running => {
            if message == WM_DESTROY {
                ShellState::Terminated
            } else {
                ShellState::Running
            }
        },
    }
}

/// Unpack a mouse message's coordinate parameter: the x position from the
/// low 16 bits, the y position from the next 16.
pub fn get_mouse_position(lparam: isize) -> (r: (isize, isize))
    ensures
        r.0 == lparam & 0xffff,
        r.1 == (lparam >> 16) & 0xffff,
{
    let x: isize = lparam & 0xffff;
    let y: isize = (lparam >> 16) & 0xffff;
    (x, y)
}

} // verus!
