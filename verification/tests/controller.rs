use rnes::controller::{Button, Controller};

fn latch(pad: &mut Controller) {
    pad.io_write(1);
    pad.io_write(0);
}

#[test]
fn controller_answers_at_0x4016_only() {
    let pad = Controller::new();
    assert!(pad.in_range(0x4016));
    assert!(!pad.in_range(0x4017));
    assert!(!pad.in_range(0x4015));
}

#[test]
fn controller_reports_buttons_in_order() {
    let mut pad = Controller::new();
    pad.set_button(Button::A, true);
    pad.set_button(Button::Start, true);
    pad.set_button(Button::Right, true);
    latch(&mut pad);
    let expected = [1, 0, 0, 1, 0, 0, 0, 1];
    for bit in expected {
        assert_eq!(pad.io_read(), 0x40 | bit);
    }
}

#[test]
fn controller_reads_ones_after_the_eighth_bit() {
    let mut pad = Controller::new();
    latch(&mut pad);
    for _ in 0..8 {
        assert_eq!(pad.io_read() & 1, 0);
    }
    for _ in 0..4 {
        assert_eq!(pad.io_read(), 0x41);
    }
}

#[test]
fn controller_gives_the_live_a_button_while_strobe_is_high() {
    let mut pad = Controller::new();
    pad.io_write(1);
    assert_eq!(pad.io_read() & 1, 0);
    pad.set_button(Button::A, true);
    assert_eq!(pad.io_read() & 1, 1);
    assert_eq!(pad.io_read() & 1, 1);
    assert_eq!(pad.io_read() & 1, 1);
    pad.set_button(Button::A, false);
    assert_eq!(pad.io_read() & 1, 0);
    let upper = pad.io_read() & 0xfe;
    assert!(upper == 0 || upper == 0x40);
}

#[test]
fn controller_snapshot_is_taken_when_strobe_falls() {
    let mut pad = Controller::new();
    pad.set_button(Button::B, true);
    latch(&mut pad);
    pad.set_button(Button::B, false);
    pad.set_button(Button::A, true);
    assert_eq!(pad.io_read() & 1, 0);
    assert_eq!(pad.io_read() & 1, 1);
}

#[test]
fn controller_write_without_falling_edge_keeps_the_snapshot() {
    let mut pad = Controller::new();
    pad.set_button(Button::A, true);
    latch(&mut pad);
    pad.set_button(Button::A, false);
    pad.io_write(0);
    assert_eq!(pad.io_read() & 1, 1);
}

#[test]
fn controller_release_clears_only_that_button() {
    let mut pad = Controller::new();
    pad.set_buttons(0xff);
    pad.set_button(Button::Select, false);
    latch(&mut pad);
    let expected = [1, 1, 0, 1, 1, 1, 1, 1];
    for bit in expected {
        assert_eq!(pad.io_read() & 1, bit);
    }
}

#[test]
fn controller_state_byte_has_a_at_bit_0_and_right_at_bit_7() {
    let mut pad = Controller::new();
    pad.set_buttons(0b1000_0010);
    latch(&mut pad);
    let expected = [0, 1, 0, 0, 0, 0, 0, 1];
    for bit in expected {
        assert_eq!(pad.io_read() & 1, bit);
    }
}

#[test]
fn button_bits() {
    assert_eq!(Button::A.bit(), 0x01);
    assert_eq!(Button::B.bit(), 0x02);
    assert_eq!(Button::Select.bit(), 0x04);
    assert_eq!(Button::Start.bit(), 0x08);
    assert_eq!(Button::Up.bit(), 0x10);
    assert_eq!(Button::Down.bit(), 0x20);
    assert_eq!(Button::Left.bit(), 0x40);
    assert_eq!(Button::Right.bit(), 0x80);
}
