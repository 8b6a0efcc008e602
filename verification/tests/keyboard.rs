use rs580::keyboard::{KeyPress, RKKey, RKKeyboard};
use rs580::{Machine, Memory, SegmentedMemory, RAM};

#[test]
fn keyboard_without_a_key_reads_open_bus() {
    let mut k = RKKeyboard::new();
    for addr in 0..8u16 {
        assert_eq!(k.get_u8(addr), 0xFF);
    }
    k.set_u8(0, 0x7F);
    assert_eq!(k.get_u8(1), 0xFF);
    assert_eq!(k.get_u8(2), 0xFF);
    assert_eq!(k.get_current_key(), None);
    assert_eq!(k.get_indicators(), 0);
}

#[test]
fn any_key_scan_sees_a_held_key() {
    let mut k = RKKeyboard::new();
    k.press(RKKey { a: 0b0111_1111, b: 0b1111_1110, c: 0 });
    assert_eq!(k.get_u8(1), 0);
    k.set_u8(0, 0);
    assert_eq!(k.get_u8(1), 0);
}

#[test]
fn line_scan_finds_the_key_on_its_line() {
    let mut k = RKKeyboard::new();
    k.press(RKKey { a: 0b0111_1111, b: 0b1111_1110, c: 0 });
    k.set_u8(0, 0b0111_1111);
    assert_eq!(k.get_u8(1), 0b1111_1110);
    k.set_u8(0, 0b1011_1111);
    assert_eq!(k.get_u8(1), 0xFF);
    assert_eq!(k.get_u8(2), 0xFF);
    assert_eq!(k.get_u8(0), 0xFF);
    assert_eq!(k.get_u8(3), 0xFF);
}

#[test]
fn modifier_key_shows_on_port_two() {
    let mut k = RKKeyboard::new();
    k.set_u8(2, 0xF5);
    assert_eq!(k.get_indicators(), 0x05);
    assert_eq!(k.get_u8(2), 0xFF);
    k.press(RKKey { a: 0, b: 0, c: 0b0110_0000 });
    assert_eq!(k.get_u8(2), 0x65);
    assert_eq!(k.get_u8(1), 0);
    k.set_u8(0, 0x7F);
    assert_eq!(k.get_u8(1), 0xFF);
    k.press(RKKey { a: 0, b: 0, c: 0b1100_1111 });
    assert_eq!(k.get_u8(2), 0xC5);
}

#[test]
fn port_three_sets_and_clears_single_bits() {
    let mut k = RKKeyboard::new();
    k.set_u8(3, 0b0000_0001);
    assert_eq!(k.get_indicators(), 0b0001);
    k.set_u8(3, 0b0000_0111);
    assert_eq!(k.get_indicators(), 0b1001);
    k.set_u8(3, 0b0000_0011);
    assert_eq!(k.get_indicators(), 0b1011);
    k.set_u8(3, 0b0000_0000);
    assert_eq!(k.get_indicators(), 0b1010);
    k.set_u8(3, 0b0000_0110);
    assert_eq!(k.get_indicators(), 0b0010);
    k.set_u8(3, 0b1000_0101);
    assert_eq!(k.get_indicators(), 0b0010);
    k.set_u8(3, 0b0000_1001);
    assert_eq!(k.get_indicators(), 0b0010);
    k.set_u8(2, 0x0F);
    assert_eq!(k.get_indicators(), 0b1111);
    k.set_u8(1, 0x00);
    k.set_u8(4, 0x00);
    assert_eq!(k.get_indicators(), 0b1111);
}

#[test]
fn a_key_is_held_for_one_second() {
    let mut k = RKKeyboard::new();
    k.set_time(5000);
    let key = RKKey { a: 0b1111_1110, b: 0b1111_1110, c: 0 };
    k.press(key);
    assert_eq!(k.get_current_key(), Some(key));
    k.set_time(6000);
    assert_eq!(k.get_current_key(), Some(key));
    assert_eq!(k.get_u8(1), 0);
    k.set_time(6001);
    assert_eq!(k.get_current_key(), None);
    assert_eq!(k.get_u8(1), 0xFF);
    k.set_time(4000);
    assert_eq!(k.get_current_key(), Some(key));
}

#[test]
fn key_presses_map_to_the_matrix() {
    assert_eq!(
        RKKey::try_from(KeyPress::Char('x')),
        Some(RKKey { a: 0b0111_1111, b: 0b1111_1110, c: 0 })
    );
    assert_eq!(
        RKKey::try_from(KeyPress::Home),
        Some(RKKey { a: 0b1111_1110, b: 0b1111_1110, c: 0 })
    );
    assert_eq!(
        RKKey::try_from(KeyPress::Char('\r')),
        Some(RKKey { a: 0b1111_1101, b: 0b1111_1101, c: 0 })
    );
    assert_eq!(
        RKKey::try_from(KeyPress::Char('\n')),
        Some(RKKey { a: 0b1111_1101, b: 0b1111_1011, c: 0 })
    );
    assert_eq!(
        RKKey::try_from(KeyPress::Backspace),
        Some(RKKey { a: 0b1111_1101, b: 0b1111_0111, c: 0 })
    );
    assert_eq!(
        RKKey::try_from(KeyPress::F(1)),
        Some(RKKey { a: 0b1111_1110, b: 0b1111_0111, c: 0 })
    );
    assert_eq!(
        RKKey::try_from(KeyPress::F(4)),
        Some(RKKey { a: 0b1111_1110, b: 0b1011_1111, c: 0 })
    );
    assert_eq!(
        RKKey::try_from(KeyPress::Left),
        Some(RKKey { a: 0b1111_1101, b: 0b1110_1111, c: 0 })
    );
    assert_eq!(
        RKKey::try_from(KeyPress::Up),
        Some(RKKey { a: 0b1111_1101, b: 0b1101_1111, c: 0 })
    );
    assert_eq!(
        RKKey::try_from(KeyPress::Right),
        Some(RKKey { a: 0b1111_1101, b: 0b1011_1111, c: 0 })
    );
    assert_eq!(
        RKKey::try_from(KeyPress::Down),
        Some(RKKey { a: 0b1111_1101, b: 0b0111_1111, c: 0 })
    );
    assert_eq!(
        RKKey::try_from(KeyPress::Char(' ')),
        Some(RKKey { a: 0b0111_1111, b: 0b0111_1111, c: 0 })
    );
    assert_eq!(
        RKKey::try_from(KeyPress::Char('7')),
        Some(RKKey { a: 0b1111_1011, b: 0b0111_1111, c: 0 })
    );
    assert_eq!(
        RKKey::try_from(KeyPress::Char('\\')),
        Some(RKKey { a: 0b0111_1111, b: 0b1110_1111, c: 0 })
    );
    assert_eq!(RKKey::try_from(KeyPress::Ctrl('a')), Some(RKKey { a: 0, b: 0, c: 0b0110_0000 }));
    assert_eq!(RKKey::try_from(KeyPress::Ctrl('u')), Some(RKKey { a: 0, b: 0, c: 0b1100_0000 }));
    assert_eq!(RKKey::try_from(KeyPress::Ctrl('s')), Some(RKKey { a: 0, b: 0, c: 0b1100_0000 }));
    assert_eq!(RKKey::try_from(KeyPress::Char('X')), None);
    assert_eq!(RKKey::try_from(KeyPress::Ctrl('x')), None);
    assert_eq!(RKKey::try_from(KeyPress::F(5)), None);
    assert_eq!(RKKey::try_from(KeyPress::F(0)), None);
    assert_eq!(RKKey::try_from(KeyPress::Other), None);
}

#[test]
fn fifty_one_characters_have_a_place() {
    let mut count = 0;
    for code in 0..128u8 {
        if RKKey::try_from(KeyPress::Char(code as char)).is_some() {
            count += 1;
        }
    }
    assert_eq!(count, 51);
}

#[test]
fn process_key_presses_quits_or_ignores() {
    let mut k = RKKeyboard::new();
    k.set_time(100);
    assert!(!k.process_key(None));
    assert_eq!(k.get_current_key(), None);
    assert!(!k.process_key(Some(KeyPress::Other)));
    assert_eq!(k.get_current_key(), None);
    assert!(!k.process_key(Some(KeyPress::Char('q'))));
    assert_eq!(k.get_current_key(), Some(RKKey { a: 0b1011_1111, b: 0b1111_1101, c: 0 }));
    assert!(k.process_key(Some(KeyPress::Ctrl('c'))));
    assert!(k.process_key(Some(KeyPress::Ctrl('q'))));
    assert_eq!(k.get_current_key(), Some(RKKey { a: 0b1011_1111, b: 0b1111_1101, c: 0 }));
    assert!(!k.process_key(Some(KeyPress::Char('Q'))));
    assert_eq!(k.get_current_key(), Some(RKKey { a: 0b1011_1111, b: 0b1111_1101, c: 0 }));
    k.set_time(1101);
    assert_eq!(k.get_current_key(), None);
}

#[test]
fn the_processor_scans_the_keyboard_through_the_bus() {
    let mut keyboard = RKKeyboard::new();
    keyboard.press(RKKey { a: 0b0111_1111, b: 0b1111_1110, c: 0 });
    let bus = SegmentedMemory::new()
        .add(0x0000, 0x4000, Box::new(RAM::default()))
        .add(0x8000, 0xA000, Box::new(keyboard));
    let mut m = Machine::new(Box::new(bus));
    m.memory.set_range(0, &[0x3E, 0x7F, 0x32, 0x00, 0x80, 0x3A, 0x01, 0x80]);
    m.step();
    m.step();
    m.step();
    assert_eq!(m.registers.a, 0b1111_1110);
    assert_eq!(m.registers.pc, 8);
}
