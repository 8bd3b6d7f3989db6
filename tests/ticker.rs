use std::cell::RefCell;
use std::rc::Rc;

use dot_ticker::display::{DotDisplay, Ticker, TickerError, DEFAULT_SPEED_MS, MESSAGE_CAPACITY};
use dot_ticker::font::glyph;
use dot_ticker::frame::{compose_frame, overlay, reverse_row, reverse_rows, shift_left, shift_right};
use dot_ticker::panel::{intensity_for, DataError, Panel};
use font8x8::{UnicodeFonts, BASIC_FONTS};

#[derive(Debug, Clone, PartialEq)]
enum Op {
    On,
    Off,
    Clear,
    Write([u8; 8]),
    Intensity(u8),
}

#[derive(Clone, Default)]
struct Recorder {
    ops: Rc<RefCell<Vec<Op>>>,
}

impl Panel for Recorder {
    fn power_on(&mut self) -> Result<(), DataError> {
        self.ops.borrow_mut().push(Op::On);
        Ok(())
    }
    fn power_off(&mut self) -> Result<(), DataError> {
        self.ops.borrow_mut().push(Op::Off);
        Ok(())
    }
    fn clear_display(&mut self) -> Result<(), DataError> {
        self.ops.borrow_mut().push(Op::Clear);
        Ok(())
    }
    fn write_raw(&mut self, frame: &[u8; 8]) -> Result<(), DataError> {
        self.ops.borrow_mut().push(Op::Write(*frame));
        Ok(())
    }
    fn set_intensity(&mut self, intensity: u8) -> Result<(), DataError> {
        self.ops.borrow_mut().push(Op::Intensity(intensity));
        Ok(())
    }
}

fn font(c: char) -> [u8; 8] {
    BASIC_FONTS.get(c).unwrap()
}

fn reversed(g: [u8; 8]) -> [u8; 8] {
    let mut r = g;
    for x in r.iter_mut() {
        *x = x.reverse_bits();
    }
    r
}

fn ticker() -> (Ticker<Recorder>, Rc<RefCell<Vec<Op>>>) {
    let rec = Recorder::default();
    let ops = rec.ops.clone();
    let display = DotDisplay::from(rec).unwrap();
    (Ticker::new(display), ops)
}

#[test]
fn glyph_comes_from_font_table() {
    assert_eq!(glyph(b'A'), font('A'));
    assert_eq!(glyph(b'H'), font('H'));
    assert_ne!(glyph(b'H'), glyph(b'I'));
}

#[test]
fn glyph_falls_back_to_question_mark() {
    assert_eq!(glyph(200), font('?'));
    assert_eq!(glyph(128), font('?'));
    assert_eq!(glyph(255), glyph(b'?'));
    assert_ne!(glyph(200), glyph(b'A'));
}

#[test]
fn reverse_row_mirrors_bits() {
    assert_eq!(reverse_row(0b0000_0001), 0b1000_0000);
    assert_eq!(reverse_row(0x0F), 0xF0);
    assert_eq!(reverse_row(0b1100_1010), 0b0101_0011);
    assert_eq!(reverse_rows(font('H')), reversed(font('H')));
}

#[test]
fn shifting_by_eight_or_more_clears_every_row() {
    let g = [0xFFu8, 0x81, 0x42, 0x24, 0x18, 0x01, 0x80, 0x7E];
    assert_eq!(shift_left(g, 8), [0u8; 8]);
    assert_eq!(shift_left(g, 40), [0u8; 8]);
    assert_eq!(shift_right(g, 8), [0u8; 8]);
    assert_eq!(shift_right(g, 9), [0u8; 8]);
}

#[test]
fn shifting_moves_pixels_and_drops_the_overflow() {
    let g = [0xFFu8, 0x81, 0x42, 0x24, 0x18, 0x01, 0x80, 0x7E];
    assert_eq!(shift_left(g, 3), [0xF8, 0x08, 0x10, 0x20, 0xC0, 0x08, 0x00, 0xF0]);
    assert_eq!(shift_right(g, 3), [0x1F, 0x10, 0x08, 0x04, 0x03, 0x00, 0x10, 0x0F]);
    assert_eq!(shift_left(g, 0), g);
}

#[test]
fn overlay_keeps_both_parts() {
    let a = [0x0Fu8, 0, 0xAA, 1, 2, 3, 4, 5];
    let b = [0xF0u8, 0, 0x55, 1, 4, 8, 16, 32];
    let r = overlay(a, b);
    assert_eq!(r, [0xFF, 0, 0xFF, 1, 6, 11, 20, 37]);
    for i in 0..8 {
        assert_eq!(r[i] & a[i], a[i]);
        assert_eq!(r[i] & b[i], b[i]);
    }
}

#[test]
fn compose_frame_blends_two_glyphs() {
    let h = font('H');
    let i = font('I');
    let f = compose_frame(h, i, 3);
    let (rh, ri) = (reversed(h), reversed(i));
    for r in 0..8 {
        assert_eq!(f[r], (rh[r] << 3) | (ri[r] >> 5));
    }
    assert_eq!(compose_frame(h, i, 0), rh);
    assert_eq!(compose_frame(h, i, 8), ri);
}

#[test]
fn intensity_scales_percent_to_register() {
    assert_eq!(intensity_for(0), 0);
    assert_eq!(intensity_for(1), 2);
    assert_eq!(intensity_for(20), 51);
    assert_eq!(intensity_for(50), 127);
    assert_eq!(intensity_for(100), 255);
    assert_eq!(intensity_for(200), 255);
}

#[test]
fn set_message_rejects_empty_text() {
    let (mut t, _) = ticker();
    assert_eq!(t.set_message(""), Err(TickerError::EmptyMessage));
    assert_eq!(t.message_len(), 0);
}

#[test]
fn set_message_rejects_text_filling_the_buffer() {
    let (mut t, _) = ticker();
    let full = "x".repeat(MESSAGE_CAPACITY);
    assert_eq!(t.set_message(&full), Err(TickerError::MessageTooLong));
    assert_eq!(t.message_len(), 0);
    let longest = "x".repeat(MESSAGE_CAPACITY - 1);
    assert_eq!(t.set_message(&longest), Ok(()));
    assert_eq!(t.message_len(), MESSAGE_CAPACITY);
}

#[test]
fn set_message_appends_separator() {
    let (mut t, _) = ticker();
    assert_eq!(t.speed_ms(), DEFAULT_SPEED_MS);
    assert_eq!(t.set_message("HI"), Ok(()));
    assert_eq!(t.message_len(), 3);
}

#[test]
fn tick_without_message_does_nothing() {
    let (mut t, ops) = ticker();
    let before = ops.borrow().len();
    assert_eq!(t.tick(), Err(TickerError::NoMessage));
    assert_eq!(t.next_frame(), Err(TickerError::NoMessage));
    assert_eq!(ops.borrow().len(), before);
}

#[test]
fn hi_scrolls_in_from_blank() {
    let (mut t, _) = ticker();
    t.set_message("HI").unwrap();
    let rh = reversed(font('H'));
    let ri = reversed(font('I'));
    let rs = reversed(font(' '));
    let frames: Vec<[u8; 8]> = (0..24).map(|_| t.next_frame().unwrap()).collect();
    assert_eq!(frames[0], [0u8; 8]);
    for r in 0..8 {
        assert_eq!(frames[4][r], rh[r] >> 4);
        assert_eq!(frames[11][r], (rh[r] << 3) | (ri[r] >> 5));
        assert_eq!(frames[18][r], (ri[r] << 2) | (rs[r] >> 6));
    }
    assert_eq!(frames[8], rh);
    assert_eq!(frames[16], ri);
}

#[test]
fn hi_repeats_every_twenty_four_ticks() {
    let (mut t, _) = ticker();
    t.set_message("HI").unwrap();
    let frames: Vec<[u8; 8]> = (0..72).map(|_| t.next_frame().unwrap()).collect();
    for k in 0..48 {
        assert_eq!(frames[k], frames[k + 24]);
    }
    assert_ne!(frames[1], frames[2]);
}

#[test]
fn scrolling_is_periodic_for_any_length() {
    for text in ["A", "Hello", "ab cd", "0123456789"] {
        let (mut t, _) = ticker();
        t.set_message(text).unwrap();
        let period = (text.len() + 1) * 8;
        for _ in 0..5 {
            t.next_frame().unwrap();
        }
        let first: Vec<[u8; 8]> = (0..period).map(|_| t.next_frame().unwrap()).collect();
        let second: Vec<[u8; 8]> = (0..period).map(|_| t.next_frame().unwrap()).collect();
        assert_eq!(first, second);
    }
}

#[test]
fn tick_writes_frames_to_the_display() {
    let (mut t, ops) = ticker();
    t.set_message("HI").unwrap();
    for _ in 0..9 {
        t.tick().unwrap();
    }
    let ops = ops.borrow();
    assert_eq!(ops[0], Op::Clear);
    assert_eq!(ops[1], Op::Off);
    assert_eq!(ops[2], Op::On);
    assert_eq!(ops[3], Op::Write([0u8; 8]));
    assert_eq!(ops.last(), Some(&Op::Write(reversed(font('H')))));
    assert_eq!(ops.iter().filter(|o| **o == Op::On).count(), 1);
}

#[test]
fn changing_message_keeps_cursor_inside_new_text() {
    let (mut t, _) = ticker();
    t.set_message("ABCDEFGH").unwrap();
    for _ in 0..(8 * 5 + 2) {
        t.next_frame().unwrap();
    }
    // Cursor at character 5, beyond "HI ": the scroll starts over.
    t.set_message("HI").unwrap();
    assert_eq!(t.next_frame().unwrap(), [0u8; 8]);
    let (mut u, _) = ticker();
    u.set_message("ABCDEFGH").unwrap();
    for _ in 0..(8 + 3) {
        u.next_frame().unwrap();
    }
    // Cursor at character 1, pixel 3: kept.
    u.set_message("XYZ").unwrap();
    let rx = reversed(font('X'));
    let ry = reversed(font('Y'));
    let f = u.next_frame().unwrap();
    for r in 0..8 {
        assert_eq!(f[r], (rx[r] << 3) | (ry[r] >> 5));
    }
}

#[test]
fn ticker_exposes_message_speed_and_display() {
    let (mut t, ops) = ticker();
    t.set_message("HI").unwrap();
    assert_eq!(t.message(), b"HI ");
    t.set_speed_ms(120);
    assert_eq!(t.speed_ms(), 120);
    assert!(!t.display().is_on());
    t.display_mut().set_brightness(50).unwrap();
    assert_eq!(t.display().brightness(), 127);
    assert_eq!(ops.borrow().last(), Some(&Op::Intensity(127)));
    assert_eq!(t.next_frame().unwrap(), [0u8; 8]);
}
