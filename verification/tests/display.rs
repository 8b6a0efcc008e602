use rs580::display::RKDisplay;
use rs580::keyboard::RKKeyboard;
use rs580::{Machine, Memory, RAM};

fn border() -> Vec<u8> {
    let mut line = vec![b'+'];
    line.extend(std::iter::repeat(b'-').take(78));
    line.extend_from_slice(b"+\r\n");
    line
}

#[test]
fn a_new_display_draws_an_empty_frame_once() {
    let mut display = RKDisplay::new();
    let picture = display.print().unwrap();
    let mut expected = border();
    for _ in 0..30 {
        expected.push(b'|');
        expected.extend(std::iter::repeat(b' ').take(78));
        expected.extend_from_slice(b"|\r\n");
    }
    expected.extend(border());
    expected.extend_from_slice(b"0000");
    assert_eq!(picture, expected);
    assert_eq!(picture.len(), 32 * 82 + 4);
    assert_eq!(display.print(), None);
    assert_eq!(display.cursor_x(), 0);
    assert_eq!(display.cursor_y(), 0);
}

#[test]
fn the_display_follows_the_video_memory() {
    let mut m = Machine::new(Box::new(RAM::default()));
    let mut display = RKDisplay::new();
    display.print();
    display.copy_from_machine(&m);
    assert_eq!(display.print(), None);
    m.memory.set_u8(0x36d0, b'A');
    m.memory.set_u8(0x36d0 + 78, 0x01);
    m.memory.set_u8(0x36d0 + 79, 0x80);
    m.memory.set_u8(0x36d0 + 80, 0x7F);
    m.memory.set_u8(0x3ff3, b'Z');
    m.memory.set_u8(0x3ff4, b'!');
    m.memory.set_u8(0x36cf, b'!');
    display.copy_from_machine(&m);
    let picture = display.print().unwrap();
    assert_eq!(picture[82], b'|');
    assert_eq!(picture[83], b'A');
    assert_eq!(picture[84], b' ');
    assert_eq!(&picture[82 * 2..82 * 2 + 5], b"|??\x7F ");
    assert_eq!(picture[82 * 30 + 78], b'Z');
    assert_eq!(picture.iter().filter(|b| **b == b'!').count(), 0);
    assert_eq!(display.print(), None);
    display.copy_from_machine(&m);
    assert_eq!(display.print(), None);
}

#[test]
fn the_display_follows_the_cursor() {
    let mut m = Machine::new(Box::new(RAM::default()));
    let mut display = RKDisplay::new();
    display.print();
    m.memory.set_u8(0x3602, 5);
    display.copy_from_machine(&m);
    assert_eq!(display.cursor_x(), 5);
    assert_eq!(display.cursor_y(), 0);
    assert!(display.print().is_some());
    m.memory.set_u8(0x3603, 7);
    display.copy_from_machine(&m);
    assert_eq!(display.cursor_x(), 5);
    assert_eq!(display.cursor_y(), 7);
    assert!(display.print().is_some());
    assert_eq!(display.print(), None);
}

#[test]
fn the_display_follows_the_indicators() {
    let mut keyboard = RKKeyboard::new();
    let mut display = RKDisplay::new();
    display.print();
    display.copy_from_keyboard(&keyboard);
    assert_eq!(display.print(), None);
    keyboard.set_u8(2, 0xFA);
    display.copy_from_keyboard(&keyboard);
    let picture = display.print().unwrap();
    assert_eq!(&picture[picture.len() - 4..], b"1010");
    display.copy_from_keyboard(&keyboard);
    assert_eq!(display.print(), None);
}

#[test]
fn a_picture_is_due_every_twenty_five_milliseconds() {
    assert!(RKDisplay::due(0));
    assert!(RKDisplay::due(25));
    assert!(RKDisplay::due(975));
    assert!(!RKDisplay::due(1));
    assert!(!RKDisplay::due(24));
    assert!(!RKDisplay::due(26));
    assert!(!RKDisplay::due(999));
}
