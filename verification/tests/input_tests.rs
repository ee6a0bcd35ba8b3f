use auto_clicker::input::{
    absolute_position, bgrx_to_rgba, covers_virtual_screen, make_lparam, wide_nul, VirtualScreen,
    WindowRect,
};
use auto_clicker::picker::{magnifier_source, picker_outcome, PickerOutcome, MAGNIFIER_SOURCE};

fn screen(x: i32, y: i32, w: i32, h: i32) -> VirtualScreen {
    VirtualScreen { x, y, w, h }
}

#[test]
fn absolute_position_corners() {
    let vs = screen(-1920, 0, 3840, 1080);
    assert_eq!(absolute_position(-1920, 0, vs), Some((0, 0)));
    assert_eq!(absolute_position(1919, 1079, vs), Some((65535, 65535)));
    assert_eq!(absolute_position(0, 540, vs), Some((32776, 32797)));
}

#[test]
fn absolute_position_outside_and_degenerate() {
    let vs = screen(0, 0, 1920, 1080);
    assert_eq!(absolute_position(-10, -1, vs), Some((-341, -60)));
    assert_eq!(absolute_position(5, 5, screen(0, 0, 1, 1080)), None);
    assert_eq!(absolute_position(5, 5, screen(0, 0, 1920, 0)), None);
}

#[test]
fn absolute_position_stays_in_range_on_screen() {
    let vs = screen(-100, -50, 333, 77);
    for x in -100..233 {
        let (dx, _) = absolute_position(x, -50, vs).unwrap();
        assert!((0..=65535).contains(&dx));
    }
}

#[test]
fn lparam_packs_low_words() {
    assert_eq!(make_lparam(1, 2), 0x0002_0001);
    assert_eq!(make_lparam(0x1234, 0x5678), 0x5678_1234);
    assert_eq!(make_lparam(-1, 0), 0x0000_FFFF);
    assert_eq!(make_lparam(0, -1), 0xFFFF_0000u32 as isize);
    assert_eq!(make_lparam(0x12345, 0x6789A), 0x789A_2345);
}

#[test]
fn lparam_round_trip_signed_words() {
    for (x, y) in [(-5i32, 7i32), (300, -200), (-32768, 32767)] {
        let w = make_lparam(x, y) as u32;
        assert_eq!((w & 0xFFFF) as u16 as i16 as i32, x);
        assert_eq!((w >> 16) as u16 as i16 as i32, y);
    }
}

#[test]
fn covers_virtual_screen_checks_position_and_size() {
    let vs = screen(-1920, 0, 3840, 1080);
    let rc = WindowRect { left: -1920, top: 0, right: 1920, bottom: 1080 };
    assert!(covers_virtual_screen(rc, vs));
    assert!(!covers_virtual_screen(WindowRect { right: 1919, ..rc }, vs));
    assert!(!covers_virtual_screen(WindowRect { left: -1919, ..rc }, vs));
    assert!(!covers_virtual_screen(WindowRect { top: 1, bottom: 1081, ..rc }, vs));
}

#[test]
fn bgrx_pixels_become_opaque_rgba() {
    let src = [1u8, 2, 3, 4, 10, 20, 30, 40, 99];
    assert_eq!(bgrx_to_rgba(&src), vec![3, 2, 1, 255, 30, 20, 10, 255]);
    assert_eq!(bgrx_to_rgba(&[]), Vec::<u8>::new());
}

#[test]
fn wide_strings_are_utf16_with_terminator() {
    assert_eq!(wide_nul(""), vec![0]);
    assert_eq!(wide_nul("Ab"), vec![0x41, 0x62, 0]);
    let s = "连点器 Auto Clicker 😀";
    let mut expected: Vec<u16> = s.encode_utf16().collect();
    expected.push(0);
    assert_eq!(wide_nul(s), expected);
}

#[test]
fn picker_outcomes() {
    assert_eq!(picker_outcome(true, false, true, (1, 2)), PickerOutcome::Cancel);
    assert_eq!(picker_outcome(false, true, false, (1, 2)), PickerOutcome::Cancel);
    assert_eq!(picker_outcome(false, false, true, (-1, 2)), PickerOutcome::Confirm((-1, 2)));
    assert_eq!(picker_outcome(false, false, false, (1, 2)), PickerOutcome::Continue);
}

#[test]
fn magnifier_square_follows_cursor_within_screen() {
    let vs = screen(-1920, 0, 3840, 1080);
    assert_eq!(MAGNIFIER_SOURCE, 70);
    assert_eq!(magnifier_source(100, 200, vs), Some((65, 165)));
    assert_eq!(magnifier_source(-1920, 0, vs), Some((-1920, 0)));
    assert_eq!(magnifier_source(1919, 1079, vs), Some((1850, 1010)));
    assert_eq!(magnifier_source(1920, 10, vs), None);
    assert_eq!(magnifier_source(10, 10, screen(0, 0, 69, 500)), None);
    for (mx, my) in [(-1900, 3), (0, 1070), (1900, 500)] {
        let (sx, sy) = magnifier_source(mx, my, vs).unwrap();
        assert!(sx <= mx && mx < sx + 70 && sy <= my && my < sy + 70);
        assert!(sx >= vs.x && sx + 70 <= vs.x + vs.w && sy >= vs.y && sy + 70 <= vs.y + vs.h);
    }
}
