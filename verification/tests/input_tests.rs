use systray_doom::input::vkey_to_doom_key;
use systray_doom::input::CKeyData;
use systray_doom::input::KeyBindings;
use systray_doom::input::KeyEvent;
use systray_doom::input::VK_DOWN;
use systray_doom::input::VK_LCONTROL;
use systray_doom::input::VK_LEFT;
use systray_doom::input::VK_MENU;
use systray_doom::input::VK_OEM_COMMA;
use systray_doom::input::VK_OEM_PERIOD;
use systray_doom::input::VK_RCONTROL;
use systray_doom::input::VK_RIGHT;
use systray_doom::input::VK_SHIFT;
use systray_doom::input::VK_SPACE;
use systray_doom::input::VK_UP;

fn bindings() -> KeyBindings {
    KeyBindings {
        right: 0xae,
        left: 0xac,
        up: 0xad,
        down: 0xaf,
        strafe_left: 0xa0,
        strafe_right: 0xa1,
        fire: 0xa3,
        use_action: 0xa2,
        strafe: 0xb8,
        speed: 0xb6,
    }
}

#[test]
fn action_keys_map_to_their_bindings() {
    let b = bindings();
    assert_eq!(vkey_to_doom_key(&b, VK_RIGHT as usize), Some(b.right));
    assert_eq!(vkey_to_doom_key(&b, VK_LEFT as usize), Some(b.left));
    assert_eq!(vkey_to_doom_key(&b, VK_UP as usize), Some(b.up));
    assert_eq!(vkey_to_doom_key(&b, VK_DOWN as usize), Some(b.down));
    assert_eq!(vkey_to_doom_key(&b, VK_OEM_COMMA as usize), Some(b.strafe_left));
    assert_eq!(vkey_to_doom_key(&b, VK_OEM_PERIOD as usize), Some(b.strafe_right));
    assert_eq!(vkey_to_doom_key(&b, VK_LCONTROL as usize), Some(b.fire));
    assert_eq!(vkey_to_doom_key(&b, VK_RCONTROL as usize), Some(b.fire));
    assert_eq!(vkey_to_doom_key(&b, VK_SPACE as usize), Some(b.use_action));
    assert_eq!(vkey_to_doom_key(&b, VK_MENU as usize), Some(b.strafe));
    assert_eq!(vkey_to_doom_key(&b, VK_SHIFT as usize), Some(b.speed));
}

#[test]
fn other_keys_fall_back_to_ascii() {
    let b = bindings();
    assert_eq!(vkey_to_doom_key(&b, 'A' as usize), Some(b'A'));
    assert_eq!(vkey_to_doom_key(&b, 'z' as usize), Some(b'z'));
    assert_eq!(vkey_to_doom_key(&b, 0x0D), Some(b'\r'));
}

#[test]
fn non_ascii_fallback_is_dropped() {
    let b = bindings();
    assert_eq!(vkey_to_doom_key(&b, 0xFF), None);
    assert_eq!(vkey_to_doom_key(&b, 0x80), None);
}

#[test]
fn fallback_truncates_to_the_low_byte() {
    let b = bindings();
    // A parameter beyond 16 bits maps by its low byte, as the shell
    // truncates it.
    assert_eq!(vkey_to_doom_key(&b, 0x10041), Some(b'A'));
}

#[test]
fn bindings_fixture_matches_engine_defaults() {
    // The engine's stock configuration from its key tables; nothing in
    // the tests rebinds them.
    let b = bindings();
    assert_eq!(b.right, *doomgeneric::input::keys::KEY_RIGHT);
    assert_eq!(b.left, *doomgeneric::input::keys::KEY_LEFT);
    assert_eq!(b.up, *doomgeneric::input::keys::KEY_UP);
    assert_eq!(b.down, *doomgeneric::input::keys::KEY_DOWN);
    assert_eq!(b.strafe_left, *doomgeneric::input::keys::KEY_STRAFELEFT);
    assert_eq!(b.strafe_right, *doomgeneric::input::keys::KEY_STRAFERIGHT);
    assert_eq!(b.fire, *doomgeneric::input::keys::KEY_FIRE);
    assert_eq!(b.use_action, *doomgeneric::input::keys::KEY_USE);
    assert_eq!(b.strafe, *doomgeneric::input::keys::KEY_STRAFE);
    assert_eq!(b.speed, *doomgeneric::input::keys::KEY_SPEED);
}

#[test]
fn c_key_record_round_trips() {
    let raw = CKeyData { pressed: true, key: 0xae };
    assert_eq!(raw.key_event(), KeyEvent { key: 0xae, pressed: true });
    let raw = CKeyData { pressed: false, key: 7 };
    assert_eq!(raw.key_event(), KeyEvent { key: 7, pressed: false });
}
