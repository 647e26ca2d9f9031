use batpu_emulator::character_display::CharacterDisplay;
use batpu_emulator::controller::Controller;
use batpu_emulator::number_display::NumberDisplay;
use batpu_emulator::screen::Screen;
use batpu_emulator::stack::Stack;

#[test]
fn controller_packed_byte_all_released() {
    let controller = Controller::new();
    assert_eq!(controller.binary(), 0);
}

#[test]
fn controller_packed_byte_bit_order() {
    let mut controller = Controller::new();
    controller.start = true;
    assert_eq!(controller.binary(), 0x80);

    controller.start = false;
    controller.select = true;
    assert_eq!(controller.binary(), 0x40);

    controller.select = false;
    controller.a = true;
    assert_eq!(controller.binary(), 0x20);

    controller.a = false;
    controller.b = true;
    assert_eq!(controller.binary(), 0x10);

    controller.b = false;
    controller.up = true;
    assert_eq!(controller.binary(), 0x08);

    controller.up = false;
    controller.right = true;
    assert_eq!(controller.binary(), 0x04);

    controller.right = false;
    controller.down = true;
    assert_eq!(controller.binary(), 0x02);

    controller.down = false;
    controller.left = true;
    assert_eq!(controller.binary(), 0x01);
}

#[test]
fn controller_packed_byte_combination_and_clear() {
    let mut controller = Controller::new();
    controller.start = true;
    controller.a = true;
    controller.left = true;
    assert_eq!(controller.binary(), 0x80 | 0x20 | 0x01);

    controller.clear();
    assert_eq!(controller.binary(), 0);
    assert!(!controller.start && !controller.a && !controller.left);
}

#[test]
fn number_display_signed_interpretation() {
    let mut display = NumberDisplay::new();
    display.set_value(200);

    display.set_signed(true);
    assert_eq!(display.value(), 200 - 256);
    assert_eq!(display.value(), -56);

    display.set_signed(false);
    assert_eq!(display.value(), 200);
}

#[test]
fn number_display_small_values_unaffected_by_sign() {
    let mut display = NumberDisplay::new();
    display.set_value(127);
    display.set_signed(true);
    assert_eq!(display.value(), 127);
    display.set_value(128);
    assert_eq!(display.value(), -128);
    display.set_value(255);
    assert_eq!(display.value(), -1);
}

#[test]
fn number_display_show_and_clear() {
    let mut display = NumberDisplay::new();
    display.show(42);
    assert_eq!(display.value(), 42);
    assert!(display.signed() == false);

    display.set_signed(true);
    display.clear();
    assert_eq!(display.value(), 0);
    assert!(!display.signed());
}

#[test]
fn number_display_update_flag() {
    let mut display = NumberDisplay::new();
    assert!(display.value_updated());
    display.disable_value_updated();
    assert!(!display.value_updated());
    display.set_value(7);
    assert!(display.value_updated());
}

#[test]
fn stack_round_trip_reverses_order() {
    let mut stack = Stack::new(16);
    for address in [3u32, 1, 4, 1, 5] {
        assert!(stack.push(address));
    }
    assert_eq!(stack.pop(), Some(5));
    assert_eq!(stack.pop(), Some(1));
    assert_eq!(stack.pop(), Some(4));
    assert_eq!(stack.pop(), Some(1));
    assert_eq!(stack.pop(), Some(3));
    assert_eq!(stack.pop(), None);
}

#[test]
fn stack_overflow_evicts_oldest() {
    let mut stack = Stack::new(16);
    for address in 100u32..117 {
        assert!(stack.push(address));
    }
    // Seventeen pushes into sixteen slots: address 100 was evicted.
    for expected in (101u32..117).rev() {
        let popped = stack.pop();
        assert_eq!(popped, Some(expected));
        assert_ne!(popped, Some(100));
    }
    assert_eq!(stack.pop(), None);
}

#[test]
fn stack_eviction_keeps_capacity() {
    let mut stack = Stack::new(2);
    stack.push(10);
    stack.push(20);
    stack.push(30);
    assert_eq!(stack.stack().len(), 2);
    assert_eq!(stack.stack()[0], 20);
    assert_eq!(stack.stack()[1], 30);
}

#[test]
fn stack_clear_and_update_flag() {
    let mut stack = Stack::new(4);
    assert!(stack.stack_updated());
    stack.disable_stack_updated();
    assert!(!stack.stack_updated());

    stack.push(9);
    assert!(stack.stack_updated());

    stack.clear();
    assert_eq!(stack.stack().len(), 0);
    assert_eq!(stack.pop(), None);
}

#[test]
fn character_display_overflow_commits_exactly_capacity() {
    let mut display = CharacterDisplay::new(10);
    for i in 0..10 {
        let pushed = display.push(Some((b'A' + i) as char));
        assert!(pushed);
    }
    // The eleventh push fails and changes nothing.
    assert!(!display.push(Some('K')));

    display.push_buffer();
    assert_eq!(display.data().len(), 10);
    assert_eq!(display.data().iter().collect::<String>(), "ABCDEFGHIJ");
}

#[test]
fn character_display_push_none_fails() {
    let mut display = CharacterDisplay::new(4);
    assert!(!display.push(None));
    display.push_buffer();
    assert_eq!(display.data().len(), 0);
}

#[test]
fn character_display_commit_and_clears() {
    let mut display = CharacterDisplay::new(4);
    display.push(Some('H'));
    display.push(Some('I'));
    // Nothing is visible before the commit.
    assert_eq!(display.data().len(), 0);

    display.push_buffer();
    assert_eq!(display.data().iter().collect::<String>(), "HI");

    display.clear_buffer();
    display.push_buffer();
    assert_eq!(display.data().len(), 0);

    display.push(Some('X'));
    display.push_buffer();
    display.clear();
    assert_eq!(display.data().len(), 0);
    assert_eq!(display.capacity(), 4);
}

#[test]
fn character_display_update_flag() {
    let mut display = CharacterDisplay::new(4);
    assert!(display.data_updated());
    display.disable_data_updated();
    assert!(!display.data_updated());
    display.push_buffer();
    assert!(display.data_updated());
}

#[test]
fn screen_wraparound_addresses_same_bit() {
    let screen = Screen::new(32, 32);
    for (x, y) in [(0isize, 0isize), (5, 7), (31, 31), (-1, 2)] {
        assert_eq!(screen.get_index(x, y), screen.get_index(x + 32, y));
        assert_eq!(screen.get_index(x, y), screen.get_index(x, y + 32));
    }
}

#[test]
fn screen_bit_packing() {
    let screen = Screen::new(32, 32);
    // Pixel (x, y) maps to bit (x + y*width) % 8 of byte (x + y*width) / 8.
    assert_eq!(screen.get_index(0, 0), (0, 0));
    assert_eq!(screen.get_index(7, 0), (0, 7));
    assert_eq!(screen.get_index(8, 0), (1, 0));
    assert_eq!(screen.get_index(0, 1), (4, 0));
    assert_eq!(screen.get_index(31, 31), (127, 7));
}

#[test]
fn screen_set_pixel_and_commit() {
    let mut screen = Screen::new(32, 32);
    screen.set_x(3);
    screen.set_y(0);
    assert!(!screen.pix());

    screen.set_pix(true);
    assert!(screen.pix());
    // The displayed image only changes on commit.
    assert_eq!(screen.image()[0], 0);

    screen.push_buffer();
    assert_eq!(screen.image()[0], 1 << 3);

    screen.set_pix(false);
    assert!(!screen.pix());
}

#[test]
fn screen_cursor_wraps_negative_coordinates() {
    let mut screen = Screen::new(32, 32);
    screen.set_x(-31);
    screen.set_y(64);
    screen.set_pix(true);
    screen.set_x(1);
    screen.set_y(0);
    assert!(screen.pix());
}

#[test]
fn screen_clears() {
    let mut screen = Screen::new(32, 32);
    screen.set_pix(true);
    screen.push_buffer();
    assert_eq!(screen.image()[0], 1);

    screen.clear_buffer();
    assert!(!screen.pix());
    // The committed image survives a back-buffer clear.
    assert_eq!(screen.image()[0], 1);

    screen.clear();
    assert_eq!(screen.image()[0], 0);
    assert_eq!(screen.width(), 32);
    assert_eq!(screen.height(), 32);
}

#[test]
fn screen_update_flag() {
    let mut screen = Screen::new(8, 8);
    assert!(screen.image_updated());
    screen.disable_image_updated();
    assert!(!screen.image_updated());
    screen.push_buffer();
    assert!(screen.image_updated());
}
