use led_scroller::{
    character, BitImage, ScrollingBufferedText, ScrollingState, ScrollingStaticText,
    BUFFER_CAPACITY, MAX_BRIGHTNESS, STEPS_PER_SYMBOL,
};
use tiny_led_matrix::Render;

fn static_state(s: &ScrollingStaticText) -> (usize, usize) {
    (s.state().symbol_index, s.state().sub_step)
}

fn buffered_state(s: &ScrollingBufferedText) -> (usize, usize) {
    (s.state().symbol_index, s.state().sub_step)
}

fn static_row(s: &ScrollingStaticText, y: usize) -> Vec<u8> {
    (0..5).map(|x| s.current_brightness_at(x, y)).collect()
}

fn static_all_dark(s: &ScrollingStaticText) -> bool {
    (0..5).all(|y| (0..5).all(|x| s.current_brightness_at(x, y) == 0))
}

#[test]
fn hi_scenario() {
    let mut s = ScrollingStaticText::default();
    s.set_message(b"HI");
    assert_eq!(STEPS_PER_SYMBOL, 5);
    assert_eq!(s.length(), 2);
    assert_eq!(static_state(&s), (0, 0));
    assert!(!s.is_finished());
    for _ in 0..4 {
        s.tick();
    }
    assert_eq!(static_state(&s), (0, 4));
    assert!(!s.is_finished());
    s.tick();
    assert_eq!(static_state(&s), (1, 0));
    assert!(!s.is_finished());
    for _ in 0..5 {
        s.tick();
    }
    assert_eq!(static_state(&s), (2, 0));
    assert_eq!(s.state().symbol_index, s.length());
    assert!(s.is_finished());
    s.tick();
    assert_eq!(static_state(&s), (2, 0));
    assert!(s.is_finished());
}

#[test]
fn buffered_takes_full_capacity() {
    let mut s = ScrollingBufferedText::default();
    s.set_message(&[0u8; 128]);
    assert_eq!(s.length(), 128);
    assert_eq!(BUFFER_CAPACITY, 128);
    assert_eq!(buffered_state(&s), (0, 0));
    assert!(!s.is_finished());
}

#[test]
fn finishes_after_length_times_steps() {
    let messages: [&'static [u8]; 4] = [b"", b"A", b"HI", b"Hello"];
    for m in messages.iter() {
        let mut s = ScrollingStaticText::default();
        s.set_message(m);
        let total = m.len() * STEPS_PER_SYMBOL;
        for n in 0..total {
            assert!(!s.is_finished(), "finished early after {} ticks", n);
            s.tick();
        }
        assert!(s.is_finished());
        assert_eq!(static_state(&s), (m.len(), 0));
    }
}

#[test]
fn buffered_finishes_after_length_times_steps() {
    let mut s = ScrollingBufferedText::default();
    s.set_message(b"abc");
    for _ in 0..15 {
        assert!(!s.is_finished());
        s.tick();
    }
    assert!(s.is_finished());
    assert_eq!(buffered_state(&s), (3, 0));
}

#[test]
fn reset_restarts() {
    let mut s = ScrollingStaticText::default();
    s.set_message(b"HI");
    for _ in 0..7 {
        s.tick();
    }
    assert_eq!(static_state(&s), (1, 2));
    s.reset();
    assert_eq!(static_state(&s), (0, 0));
    assert!(!s.is_finished());
    assert_eq!(s.length(), 2);

    let mut e = ScrollingStaticText::default();
    e.reset();
    assert_eq!(static_state(&e), (0, 0));
    assert!(e.is_finished());

    let mut b = ScrollingBufferedText::default();
    b.set_message(b"x");
    b.tick();
    b.reset();
    assert_eq!(buffered_state(&b), (0, 0));
    assert!(!b.is_finished());
}

#[test]
fn empty_scrollers_are_finished() {
    let s = ScrollingStaticText::default();
    assert_eq!(s.length(), 0);
    assert!(s.is_finished());
    let b = ScrollingBufferedText::default();
    assert_eq!(b.length(), 0);
    assert!(b.is_finished());
    let mut t = ScrollingStaticText::new();
    t.tick();
    assert_eq!(static_state(&t), (0, 0));
}

#[test]
fn set_message_resets_progress() {
    let mut s = ScrollingStaticText::default();
    s.set_message(b"HI");
    for _ in 0..12 {
        s.tick();
    }
    assert!(s.is_finished());
    s.set_message(b"HELLO");
    assert_eq!(static_state(&s), (0, 0));
    assert_eq!(s.length(), 5);

    let mut b = ScrollingBufferedText::default();
    b.set_message(b"HI");
    for _ in 0..3 {
        b.tick();
    }
    assert_eq!(buffered_state(&b), (0, 3));
    b.set_message(b"A");
    assert_eq!(buffered_state(&b), (0, 0));
    assert_eq!(b.length(), 1);
}

#[test]
fn finished_ticks_change_nothing() {
    let mut b = ScrollingBufferedText::default();
    b.set_message(b"Z");
    for _ in 0..5 {
        b.tick();
    }
    assert!(b.is_finished());
    for _ in 0..20 {
        b.tick();
        assert_eq!(buffered_state(&b), (1, 0));
        assert!(b.is_finished());
    }
}

#[test]
fn first_frame_shows_first_glyph() {
    let mut s = ScrollingStaticText::default();
    s.set_message(b"HI");
    // H: 10001 / 10001 / 11111 / 10001 / 10001
    assert_eq!(static_row(&s, 0), vec![9, 0, 0, 0, 9]);
    assert_eq!(static_row(&s, 2), vec![9, 9, 9, 9, 9]);
    assert_eq!(static_row(&s, 4), vec![9, 0, 0, 0, 9]);
}

#[test]
fn text_moves_one_column_per_tick() {
    let mut s = ScrollingStaticText::default();
    s.set_message(b"HI");
    s.tick();
    s.tick();
    // columns 2..4 of H, then columns 0..1 of I (11111 / 00100 / 00100 / 00100 / 11111)
    assert_eq!(static_row(&s, 0), vec![0, 0, 9, 9, 9]);
    assert_eq!(static_row(&s, 1), vec![0, 0, 9, 0, 0]);
    assert_eq!(static_row(&s, 2), vec![9, 9, 9, 0, 0]);
    s.tick();
    s.tick();
    s.tick();
    assert_eq!(static_row(&s, 0), vec![9, 9, 9, 9, 9]);
    assert_eq!(static_row(&s, 1), vec![0, 0, 9, 0, 0]);
}

#[test]
fn dark_past_message_end() {
    let mut s = ScrollingStaticText::default();
    s.set_message(b"H");
    s.tick();
    // screen column 4 shows the position just past the only glyph
    for y in 0..5 {
        assert_eq!(s.current_brightness_at(4, y), 0);
    }
    assert_eq!(s.current_brightness_at(3, 0), 9);
    s.tick();
    s.tick();
    for y in 0..5 {
        for x in 2..5 {
            assert_eq!(s.current_brightness_at(x, y), 0);
        }
    }
    s.tick();
    s.tick();
    assert!(s.is_finished());
    assert!(static_all_dark(&s));
}

#[test]
fn dark_off_the_grid() {
    let mut s = ScrollingStaticText::default();
    s.set_message(b"###");
    assert_eq!(s.current_brightness_at(5, 1), 0);
    assert_eq!(s.current_brightness_at(1, 5), 0);
    assert_eq!(s.current_brightness_at(usize::MAX, usize::MAX), 0);
    assert_eq!(s.current_brightness_at(1, 1), 9);
}

#[test]
fn render_delegates_to_brightness() {
    let mut s = ScrollingStaticText::default();
    s.set_message(b"HI");
    let mut b = ScrollingBufferedText::default();
    b.set_message(b"HI");
    for _ in 0..6 {
        for y in 0..5 {
            for x in 0..5 {
                let expected = s.current_brightness_at(x, y);
                assert_eq!(Render::brightness_at(&s, x, y), expected);
                assert_eq!(Render::brightness_at(&b, x, y), expected);
                assert_eq!(b.current_brightness_at(x, y), expected);
            }
        }
        s.tick();
        b.tick();
    }
}

#[test]
fn buffered_keeps_its_own_copy() {
    let mut source = vec![b'O', b'K'];
    let mut b = ScrollingBufferedText::default();
    b.set_message(&source);
    source[0] = b' ';
    source[1] = b' ';
    assert_eq!(b.length(), 2);
    assert_eq!(b.subimage(0).rows, character(b'O').rows);
    assert_eq!(b.subimage(1).rows, character(b'K').rows);
    // O: 01110 / 10001 / ...
    assert_eq!(b.current_brightness_at(0, 0), 0);
    assert_eq!(b.current_brightness_at(1, 0), 9);
    assert_eq!(b.current_brightness_at(0, 1), 9);
}

#[test]
fn shorter_message_replaces_longer_one() {
    let mut b = ScrollingBufferedText::default();
    b.set_message(b"ABCDEF");
    b.set_message(b"I");
    assert_eq!(b.length(), 1);
    for _ in 0..5 {
        b.tick();
    }
    assert!(b.is_finished());
}

#[test]
fn subimage_is_font_glyph() {
    let mut s = ScrollingStaticText::default();
    s.set_message(b"A~");
    assert_eq!(
        s.subimage(0).rows,
        [0b01110, 0b10001, 0b11111, 0b10001, 0b10001]
    );
    assert_eq!(s.subimage(1).rows, character(b'~').rows);
}

#[test]
fn font_covers_printable_ascii() {
    assert_eq!(character(b' ').rows, [0; 5]);
    assert_eq!(character(b'!').rows, [0b00100, 0b00100, 0b00100, 0b00000, 0b00100]);
    assert_eq!(character(b'~').rows, [0b00000, 0b00000, 0b01101, 0b10010, 0b00000]);
    for c in 0x21u8..0x7f {
        assert_ne!(character(c).rows, [0; 5], "glyph of {} is blank", c);
    }
}

#[test]
fn font_blank_outside_printable() {
    for c in [0u8, 0x0a, 0x1f, 0x7f, 0x80, 0xff] {
        assert_eq!(character(c).rows, [0; 5]);
    }
}

#[test]
fn bit_image_brightness() {
    let img = BitImage::new([0b10000, 0b00001, 0, 0, 0b11111]);
    assert_eq!(img.brightness_at(0, 0), MAX_BRIGHTNESS);
    assert_eq!(img.brightness_at(1, 0), 0);
    assert_eq!(img.brightness_at(4, 1), 9);
    assert_eq!(img.brightness_at(3, 1), 0);
    assert_eq!(img.brightness_at(2, 4), 9);
    assert_eq!(img.brightness_at(5, 0), 0);
    assert_eq!(img.brightness_at(0, 5), 0);
    assert_eq!(Render::brightness_at(&img, 0, 0), 9);
}

#[test]
fn scrolling_state_clock() {
    let mut st = ScrollingState::default();
    assert_eq!((st.symbol_index, st.sub_step), (0, 0));
    assert!(!st.is_finished(1));
    assert!(ScrollingState::new().is_finished(0));
    for _ in 0..4 {
        st.tick(1);
    }
    assert_eq!((st.symbol_index, st.sub_step), (0, 4));
    st.tick(1);
    assert_eq!((st.symbol_index, st.sub_step), (1, 0));
    assert!(st.is_finished(1));
    st.tick(1);
    assert_eq!((st.symbol_index, st.sub_step), (1, 0));
    st.reset();
    assert_eq!((st.symbol_index, st.sub_step), (0, 0));
}
