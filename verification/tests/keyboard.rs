use chip8::{HostKey, Keyboard};

#[test]
fn released_keypad_has_no_key_down() {
    let kbd = Keyboard::released();
    for k in 0..16 {
        assert!(!kbd.is_pressed(k));
    }
    assert_eq!(kbd.first_pressed(), None);
}

#[test]
fn is_pressed_reads_the_snapshot() {
    let mut keys = [false; 16];
    keys[0x3] = true;
    keys[0xF] = true;
    let kbd = Keyboard::new(keys);
    for k in 0..16u8 {
        assert_eq!(kbd.is_pressed(k), k == 0x3 || k == 0xF);
    }
}

#[test]
fn first_pressed_is_the_lowest_key_down() {
    let mut keys = [false; 16];
    keys[0xF] = true;
    assert_eq!(Keyboard::new(keys).first_pressed(), Some(0xF));
    keys[0x8] = true;
    assert_eq!(Keyboard::new(keys).first_pressed(), Some(0x8));
    keys[0x0] = true;
    assert_eq!(Keyboard::new(keys).first_pressed(), Some(0x0));
    assert_eq!(Keyboard::new([true; 16]).first_pressed(), Some(0x0));
}

#[test]
fn keypad_layout_on_the_host_keyboard() {
    let rows = [
        [(0x1, HostKey::Num1), (0x2, HostKey::Num2), (0x3, HostKey::Num3), (0xC, HostKey::Num4)],
        [(0x4, HostKey::Q), (0x5, HostKey::W), (0x6, HostKey::E), (0xD, HostKey::R)],
        [(0x7, HostKey::A), (0x8, HostKey::S), (0x9, HostKey::D), (0xE, HostKey::F)],
        [(0xA, HostKey::Z), (0x0, HostKey::X), (0xB, HostKey::C), (0xF, HostKey::F)],
    ];
    for row in rows {
        for (k, host) in row {
            assert_eq!(Keyboard::host_key(k), host);
        }
    }
}
