use nes::controller::{Btn, Controller};

#[test]
fn controller_reports_buttons_in_order_then_ones() {
    let mut pad = Controller::new();
    pad.press(Btn::A);
    pad.press(Btn::Start);
    pad.press(Btn::Right);
    pad.write(1);
    pad.write(0);
    let expected = [1u8, 0, 0, 1, 0, 0, 0, 1];
    for e in expected {
        assert_eq!(pad.read(), e);
    }
    for _ in 0..20 {
        assert_eq!(pad.read(), 1);
    }
}

#[test]
fn controller_reports_a_while_strobe_is_high() {
    let mut pad = Controller::new();
    pad.press(Btn::A);
    pad.write(1);
    for _ in 0..10 {
        assert_eq!(pad.read(), 1);
    }
    pad.release(Btn::A);
    for _ in 0..10 {
        assert_eq!(pad.read(), 0);
    }
}
