//! Key events and the mapping from Win32 virtual-key codes to the
//! engine's key codes.

use vstd::prelude::*;

verus! {

/// A single key press or release, carrying the engine's key code.
#[derive(Clone, Copy, Debug, PartialEq, Eq, Structural)]
pub struct KeyEvent {
    pub key: u8,
    pub pressed: bool,
}

/// The key record as it crosses the adapter's C boundary, field for field
/// what the host-side callback hands back.
#[derive(Clone, Copy, Debug, PartialEq, Eq, Structural)]
pub struct CKeyData {
    pub pressed: bool,
    pub key: u8,
}

impl CKeyData {
    /// The engine-side event this record stands for.
    pub fn key_event(self) -> (e: KeyEvent)
        ensures
            e.key == self.key,
            e.pressed == self.pressed,
    {
        KeyEvent { key: self.key, pressed: self.pressed }
    }
}

/// The engine's current keyboard bindings: one engine key code for each
/// game action. The engine exposes these as mutable configuration, so they
/// are read at run time rather than fixed here.
#[derive(Clone, Copy, Debug, PartialEq, Eq, Structural)]
pub struct KeyBindings {
    pub right: u8,
    pub left: u8,
    pub up: u8,
    pub down: u8,
    pub strafe_left: u8,
    pub strafe_right: u8,
    pub fire: u8,
    pub use_action: u8,
    pub strafe: u8,
    pub speed: u8,
}

/// Relies on `doomgeneric::input::keys::from_char`: an ASCII character is
/// its own engine key code, anything else has none.
#[verifier::external_body]
fn doom_key_from_char(c: u8) -> (r: Option<u8>)
    ensures
        r == (if c < 128 {
            Some(c)
        } else {
            None::<u8>
        }),
{
    doomgeneric::input::keys::from_char(c as char)
}

/// Win32 virtual-key codes intercepted by the shell.
pub const VK_SHIFT: u16 = 0x10;
pub const VK_MENU: u16 = 0x12;
pub const VK_SPACE: u16 = 0x20;
pub const VK_LEFT: u16 = 0x25;
pub const VK_UP: u16 = 0x26;
pub const VK_RIGHT: u16 = 0x27;
pub const VK_DOWN: u16 = 0x28;
pub const VK_LCONTROL: u16 = 0xA2;
pub const VK_RCONTROL: u16 = 0xA3;
pub const VK_OEM_COMMA: u16 = 0xBC;
pub const VK_OEM_PERIOD: u16 = 0xBE;

/// What `vkey_to_doom_key` returns: the bound engine key for the game
/// actions the shell intercepts, and otherwise the character fallback,
/// which accepts exactly the ASCII range.
pub open spec fn spec_vkey_to_doom_key(b: KeyBindings, button: usize) -> Option<u8> {
    let vkey = (button & 0xFFFF) as u16;
    if vkey == VK_RIGHT {
        Some(b.right)
    } else if vkey == VK_LEFT {
        Some(b.left)
    } else if vkey == VK_UP {
        Some(b.up)
    } else if vkey == VK_DOWN {
        Some(b.down)
    } else if vkey == VK_OEM_COMMA {
        Some(b.strafe_left)
    } else if vkey == VK_OEM_PERIOD {
        Some(b.strafe_right)
    } else if vkey == VK_LCONTROL || vkey == VK_RCONTROL {
        Some(b.fire)
    } else if vkey == VK_SPACE {
        Some(b.use_action)
    } else if vkey == VK_MENU {
        Some(b.strafe)
    } else if vkey == VK_SHIFT {
        Some(b.speed)
    } else if (button & 0xFF) < 128 {
        Some((button & 0xFF) as u8)
    } else {
        None
    }
}

/// Map a raw key-message parameter to an engine key code: the fixed
/// action table first, then the engine's character fallback; unmappable
/// input yields nothing.
pub fn vkey_to_doom_key(bindings: &KeyBindings, button: usize) -> (r: Option<u8>)
    ensures
        r == spec_vkey_to_doom_key(*bindings, button),
{
    proof {
        assert((button & 0xFFFF) < 0x10000usize && (button & 0xFF) < 0x100usize) by (bit_vector);
    }
    let vkey: u16 = (button & 0xFFFF) as u16;
    match vkey {
        VK_RIGHT => Some(bindings.right),
        VK_LEFT => Some(bindings.left),
        VK_UP => Some(bindings.up),
        VK_DOWN => Some(bindings.down),
        VK_OEM_COMMA => Some(bindings.strafe_left),
        VK_OEM_PERIOD => Some(bindings.strafe_right),
        VK_LCONTROL | VK_RCONTROL => Some(bindings.fire),
        VK_SPACE => Some(bindings.use_action),
        VK_MENU => Some(bindings.strafe),
        VK_SHIFT => Some(bindings.speed),
        _ => doom_key_from_char((button & 0xFF) as u8),
    }
}

} // verus!
