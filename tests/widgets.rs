use termion::event::MouseButton;
use termion_widgets::button::{Button, MouseInput};
use termion_widgets::glyph::{box_mix, BOX_MIX, BOX_THIC, BOX_THIN};
use termion_widgets::label::TextLabel;

fn arm(d: usize) -> Option<bool> {
    match d {
        0 => None,
        1 => Some(false),
        _ => Some(true),
    }
}

fn sample() -> Button {
    Button::new((3, 5), (4, 2), b"\x1b[38;5;1m".to_vec())
}

#[test]
fn box_mix_empty_is_space() {
    assert_eq!(box_mix([None, None, None, None]), ' ');
    assert_eq!(BOX_THIN[0], ' ');
    assert_eq!(BOX_THIC[0], ' ');
    assert_eq!(BOX_MIX[0], ' ');
}

#[test]
fn box_mix_matches_table_and_is_injective() {
    let mut seen = Vec::new();
    for i in 0..81usize {
        let dirs = [arm(i % 3), arm(i / 3 % 3), arm(i / 9 % 3), arm(i / 27 % 3)];
        let c = box_mix(dirs);
        assert_eq!(c, BOX_MIX[i]);
        assert!(!seen.contains(&c));
        seen.push(c);
    }
    assert_eq!(seen.len(), 81);
}

#[test]
fn box_mix_single_arms() {
    assert_eq!(box_mix([Some(false), None, None, None]), '╶');
    assert_eq!(box_mix([Some(true), None, None, None]), '╺');
    assert_eq!(box_mix([None, Some(false), None, None]), '╴');
    assert_eq!(box_mix([None, None, Some(false), None]), '╷');
    assert_eq!(box_mix([None, None, None, Some(false)]), '╵');
    assert_eq!(box_mix([Some(false), Some(false), None, None]), '─');
    assert_eq!(box_mix([Some(true), Some(true), Some(true), Some(true)]), '╋');
    assert_eq!(box_mix([Some(false), Some(true), Some(false), Some(true)]), '╅');
}

#[test]
fn isinside_boundaries() {
    let b = sample();
    assert!(b.isinside((3, 5)));
    assert!(b.isinside((6, 6)));
    assert!(b.isinside((6, 5)));
    assert!(b.isinside((3, 6)));
    assert!(!b.isinside((2, 5)));
    assert!(!b.isinside((7, 5)));
    assert!(!b.isinside((3, 4)));
    assert!(!b.isinside((3, 7)));
}

#[test]
fn single_cell_region() {
    let b = Button::new((1, 1), (1, 1), Vec::new());
    assert!(b.isinside((1, 1)));
    assert!(!b.isinside((2, 1)));
    assert!(!b.isinside((1, 2)));
}

#[test]
fn press_reported_once() {
    let mut b = sample();
    b.input(&MouseInput::Press(MouseButton::Left, 4, 5));
    assert!(b.held(MouseButton::Left));
    assert!(b.pressed(MouseButton::Left));
    assert!(!b.pressed(MouseButton::Left));
    assert!(b.held(MouseButton::Left));
}

#[test]
fn press_outside_ignored() {
    let mut b = sample();
    b.input(&MouseInput::Press(MouseButton::Left, 10, 10));
    assert!(!b.held(MouseButton::Left));
    assert!(!b.pressed(MouseButton::Left));
}

#[test]
fn release_outside_reports_nothing() {
    let mut b = sample();
    b.input(&MouseInput::Press(MouseButton::Right, 3, 5));
    b.input(&MouseInput::Release(20, 20));
    assert!(!b.held(MouseButton::Right));
    assert!(!b.released(MouseButton::Right));
    assert!(!b.released(MouseButton::Left));
    assert!(!b.pressed(MouseButton::Right));
}

#[test]
fn release_inside_reported_once() {
    let mut b = sample();
    b.input(&MouseInput::Press(MouseButton::Middle, 6, 6));
    b.input(&MouseInput::Release(5, 5));
    assert!(!b.held(MouseButton::Middle));
    assert!(b.released(MouseButton::Middle));
    assert!(!b.released(MouseButton::Middle));
    assert!(!b.held(MouseButton::Middle));
}

#[test]
fn release_held_outside_then_inside_after_drag() {
    let mut b = sample();
    b.input(&MouseInput::Press(MouseButton::Left, 3, 5));
    b.input(&MouseInput::Other);
    assert!(b.held(MouseButton::Left));
    b.input(&MouseInput::Release(4, 6));
    assert!(b.released(MouseButton::Left));
}

#[test]
fn pressed_other_button_consumes_press() {
    let mut b = sample();
    b.input(&MouseInput::Press(MouseButton::Left, 3, 5));
    assert!(!b.pressed(MouseButton::Right));
    assert!(!b.pressed(MouseButton::Left));
}

#[test]
fn released_other_button_consumes_release() {
    let mut b = sample();
    b.input(&MouseInput::Press(MouseButton::Left, 3, 5));
    b.input(&MouseInput::Release(3, 5));
    assert!(!b.released(MouseButton::Right));
    assert!(!b.released(MouseButton::Left));
}

#[test]
fn release_clears_pending_press() {
    let mut b = sample();
    b.input(&MouseInput::Press(MouseButton::Left, 3, 5));
    b.input(&MouseInput::Release(30, 30));
    assert!(!b.pressed(MouseButton::Left));
}

#[test]
fn new_press_clears_pending_release() {
    let mut b = sample();
    b.input(&MouseInput::Press(MouseButton::Left, 3, 5));
    b.input(&MouseInput::Release(3, 5));
    b.input(&MouseInput::Press(MouseButton::Left, 40, 40));
    assert!(!b.released(MouseButton::Left));
}

fn expected_render(fill: &str) -> Vec<u8> {
    let mut out = b"\x1b[5;3H\x1b[38;5;1m".to_vec();
    for _ in 0..2 {
        for _ in 0..4 {
            out.extend_from_slice(fill.as_bytes());
        }
        out.extend_from_slice(b"\n\x1b[4D");
    }
    out.extend_from_slice(b"\x1b[39m");
    out
}

#[test]
fn render_not_held_is_solid() {
    let b = sample();
    let mut buff = b"prefix".to_vec();
    b.render(&mut buff);
    let mut want = b"prefix".to_vec();
    want.extend(expected_render("█"));
    assert_eq!(buff, want);
    let text = String::from_utf8(buff).unwrap();
    assert_eq!(text.matches('█').count(), 8);
    assert_eq!(text.matches('\n').count(), 2);
}

#[test]
fn render_held_is_shaded() {
    let mut b = sample();
    b.input(&MouseInput::Press(MouseButton::Left, 3, 5));
    let mut buff = Vec::new();
    b.render(&mut buff);
    assert_eq!(buff, expected_render("▒"));
    let text = String::from_utf8(buff).unwrap();
    assert_eq!(text.matches('▒').count(), 8);
    assert_eq!(text.matches('█').count(), 0);
}

#[test]
fn render_large_coordinates() {
    let b = Button::new((120, 45), (12, 1), Vec::new());
    let mut buff = Vec::new();
    b.render(&mut buff);
    let mut want = b"\x1b[45;120H".to_vec();
    for _ in 0..12 {
        want.extend_from_slice("█".as_bytes());
    }
    want.extend_from_slice(b"\n\x1b[12D\x1b[39m");
    assert_eq!(buff, want);
}

#[test]
fn text_label_render() {
    let l = TextLabel::new((7, 2), String::from("héllo"), b"\x1b[38;5;2m".to_vec());
    let mut buff = Vec::new();
    l.render(&mut buff);
    let mut want = b"\x1b[38;5;2m\x1b[2;7H".to_vec();
    want.extend_from_slice("héllo".as_bytes());
    want.extend_from_slice(b"\x1b[39m");
    assert_eq!(buff, want);
}
