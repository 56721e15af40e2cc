use st7735_lcd::{Action, ST7735};

fn expected_init(rgb: bool, inverted: bool) -> Vec<Action> {
    vec![
        Action::ResetHigh,
        Action::ResetLow,
        Action::ResetHigh,
        Action::DcLow,
        Action::Write(vec![0x01]),
        Action::DelayMs(200),
        Action::DcLow,
        Action::Write(vec![0x11]),
        Action::DelayMs(200),
        Action::DcLow,
        Action::Write(vec![0xB1]),
        Action::DcHigh,
        Action::Write(vec![0x01, 0x2C, 0x2D]),
        Action::DcLow,
        Action::Write(vec![0xB2]),
        Action::DcHigh,
        Action::Write(vec![0x01, 0x2C, 0x2D]),
        Action::DcLow,
        Action::Write(vec![0xB3]),
        Action::DcHigh,
        Action::Write(vec![0x01, 0x2C, 0x2D, 0x01, 0x2C, 0x2D]),
        Action::DcLow,
        Action::Write(vec![0xB4]),
        Action::DcHigh,
        Action::Write(vec![0x07]),
        Action::DcLow,
        Action::Write(vec![0xC0]),
        Action::DcHigh,
        Action::Write(vec![0xA2, 0x02, 0x84]),
        Action::DcLow,
        Action::Write(vec![0xC1]),
        Action::DcHigh,
        Action::Write(vec![0xC5]),
        Action::DcLow,
        Action::Write(vec![0xC2]),
        Action::DcHigh,
        Action::Write(vec![0x0A, 0x00]),
        Action::DcLow,
        Action::Write(vec![0xC3]),
        Action::DcHigh,
        Action::Write(vec![0x8A, 0x2A]),
        Action::DcLow,
        Action::Write(vec![0xC4]),
        Action::DcHigh,
        Action::Write(vec![0x8A, 0xEE]),
        Action::DcLow,
        Action::Write(vec![0xC5]),
        Action::DcHigh,
        Action::Write(vec![0x0E]),
        Action::DcLow,
        Action::Write(vec![if inverted { 0x21 } else { 0x20 }]),
        Action::DcLow,
        Action::Write(vec![0x36]),
        Action::DcHigh,
        Action::Write(vec![if rgb { 0x00 } else { 0x08 }]),
        Action::DcLow,
        Action::Write(vec![0x3A]),
        Action::DcHigh,
        Action::Write(vec![0x05]),
        Action::DcLow,
        Action::Write(vec![0x29]),
        Action::DelayMs(200),
    ]
}

#[test]
fn init_rgb_inverted() {
    assert_eq!(ST7735::new(true, true, 160, 128).init(), expected_init(true, true));
}

#[test]
fn init_rgb_not_inverted() {
    assert_eq!(ST7735::new(true, false, 160, 128).init(), expected_init(true, false));
}

#[test]
fn init_bgr_inverted() {
    assert_eq!(ST7735::new(false, true, 160, 128).init(), expected_init(false, true));
}

#[test]
fn init_bgr_not_inverted() {
    assert_eq!(ST7735::new(false, false, 160, 128).init(), expected_init(false, false));
}

#[test]
fn init_differs_only_in_inversion_and_color_order() {
    let base = ST7735::new(true, true, 160, 128).init();
    for (rgb, inverted) in [(true, false), (false, true), (false, false)] {
        let other = ST7735::new(rgb, inverted, 80, 160).init();
        assert_eq!(other.len(), base.len());
        for i in 0..base.len() {
            if i != 50 && i != 54 {
                assert_eq!(other[i], base[i]);
            }
        }
        assert_eq!(other[50] == base[50], inverted);
        assert_eq!(other[54] == base[54], rgb);
    }
}

#[test]
fn init_does_not_depend_on_offset_or_size() {
    let mut display = ST7735::new(false, true, 80, 160);
    display.set_offset(26, 1);
    assert_eq!(display.init(), expected_init(false, true));
}

#[test]
fn hard_reset_drives_reset_high_low_high() {
    let display = ST7735::new(true, false, 160, 128);
    assert_eq!(
        display.hard_reset(),
        vec![Action::ResetHigh, Action::ResetLow, Action::ResetHigh]
    );
}

#[test]
fn hard_reset_is_the_same_for_every_session() {
    let mut display = ST7735::new(false, true, 1, 1);
    display.set_offset(9, 9);
    assert_eq!(
        display.hard_reset(),
        vec![Action::ResetHigh, Action::ResetLow, Action::ResetHigh]
    );
}

#[test]
fn every_write_follows_a_line_selection() {
    let mut display = ST7735::new(false, true, 160, 128);
    display.set_offset(1, 25);
    let plans = vec![
        display.init(),
        display.hard_reset(),
        display.set_pixel(1, 2, 3),
        display.set_color(0, 0, 9, 9, 0x1234),
        display.set_pixels(0, 0, 1, 1, &[1, 2, 3, 4]),
        display.write_pixels(&[5, 6]),
        display.set_orientation(&st7735_lcd::Orientation::Landscape),
        display.clear(0),
    ];
    for plan in plans {
        let mut commanded = false;
        for i in 0..plan.len() {
            match &plan[i] {
                Action::Write(bytes) => {
                    assert!(i > 0);
                    match &plan[i - 1] {
                        Action::DcLow => assert_eq!(bytes.len(), 1),
                        Action::DcHigh => assert!(commanded),
                        other => panic!("write after {:?}", other),
                    }
                }
                Action::DcLow => commanded = true,
                _ => {}
            }
        }
    }
}
