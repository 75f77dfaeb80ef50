use kernel_writer::font::get_char_raster;
use kernel_writer::frame::{FrameInfo, PixelFormat};
use kernel_writer::keys::{KeyCode, KeyInput};
use kernel_writer::writer::FrameBufferWriter;

fn info(width: usize, height: usize, format: PixelFormat, bpp: usize) -> FrameInfo {
    FrameInfo {
        byte_len: width * height * bpp,
        width,
        height,
        pixel_format: format,
        bytes_per_pixel: bpp,
        stride: width,
    }
}

fn writer(width: usize, height: usize, format: PixelFormat, bpp: usize) -> FrameBufferWriter {
    let i = info(width, height, format, bpp);
    FrameBufferWriter::new(vec![0xAA; i.byte_len], i)
}

fn pixel(w: &FrameBufferWriter, x: usize, y: usize) -> Vec<u8> {
    let i = w.info();
    let off = (y * i.stride + x) * i.bytes_per_pixel;
    w.buffer()[off..off + i.bytes_per_pixel].to_vec()
}

#[test]
fn new_clears_and_homes() {
    let w = writer(40, 30, PixelFormat::Rgb, 4);
    assert!(w.buffer().iter().all(|b| *b == 0));
    assert_eq!(w.buffer().len(), 40 * 30 * 4);
    assert_eq!(w.cursor(), (1, 1));
    assert_eq!(w.color(), [255, 255, 255, 255]);
    assert_eq!(w.width(), 40);
    assert_eq!(w.height(), 30);
}

#[test]
fn write_char_draws_rgb_glyph_and_advances() {
    let mut w = writer(40, 30, PixelFormat::Rgb, 4);
    w.write_char('A');
    assert_eq!(w.cursor(), (10, 1));
    // raster row 3 of 'A' holds 165 at column 3
    assert_eq!(pixel(&w, 1 + 3, 1 + 3), vec![165, 165, 82, 0]);
    assert_eq!(pixel(&w, 1 + 4, 1 + 3), vec![249, 249, 124, 0]);
    assert_eq!(pixel(&w, 1, 1 + 3), vec![0, 0, 0, 0]);
    let g = get_char_raster('A');
    for y in 0..16 {
        for x in 0..9 {
            let i = g.pixel(y, x);
            assert_eq!(pixel(&w, 1 + x, 1 + y), vec![i, i, i / 2, 0]);
        }
    }
    // nothing outside the cell
    assert_eq!(pixel(&w, 10, 1), vec![0, 0, 0, 0]);
    assert_eq!(pixel(&w, 1, 17), vec![0, 0, 0, 0]);
}

#[test]
fn write_char_bgr_and_u8_formats() {
    let mut w = writer(40, 30, PixelFormat::Bgr, 3);
    w.write_char('A');
    assert_eq!(pixel(&w, 4, 4), vec![82, 165, 165]);
    let mut u = writer(40, 30, PixelFormat::U8, 1);
    u.write_char('A');
    assert_eq!(pixel(&u, 4, 4), vec![0]);
    assert_eq!(pixel(&u, 5, 4), vec![0xf]);
}

#[test]
fn newline_and_carriage_return() {
    let mut w = writer(40, 60, PixelFormat::Rgb, 4);
    w.write_char('A');
    w.write_char('\n');
    assert_eq!(w.cursor(), (1, 19));
    w.write_char('B');
    w.write_char('\r');
    assert_eq!(w.cursor(), (1, 19));
}

#[test]
fn wraps_at_right_edge() {
    // width 30: cells at x = 1, 10; the third would reach x + 9 = 28 < 30, so it fits;
    // the fourth starts at 28 and 28 + 9 >= 30 wraps
    let mut w = writer(30, 60, PixelFormat::Rgb, 4);
    w.write_char('a');
    w.write_char('b');
    w.write_char('c');
    assert_eq!(w.cursor(), (28, 1));
    w.write_char('d');
    assert_eq!(w.cursor(), (10, 19));
}

#[test]
fn clears_at_bottom_edge() {
    // height 36: a line at y = 19 needs 19 + 16 + 1 = 36 >= 36, so the screen clears
    let mut w = writer(40, 36, PixelFormat::Rgb, 4);
    w.write_char('A');
    w.write_char('\n');
    assert_eq!(w.cursor(), (1, 19));
    w.write_char('B');
    assert_eq!(w.cursor(), (10, 1));
    // only 'B' is on screen, drawn at the home position
    let g = get_char_raster('B');
    for y in 0..16 {
        for x in 0..9 {
            let i = g.pixel(y, x);
            assert_eq!(pixel(&w, 1 + x, 1 + y), vec![i, i, i / 2, 0]);
        }
    }
    assert!(w.buffer()[40 * 19 * 4..].iter().all(|b| *b == 0));
}

#[test]
fn write_str_writes_each_char() {
    let mut a = writer(40, 60, PixelFormat::Rgb, 4);
    a.write_str("Hi\nA");
    let mut b = writer(40, 60, PixelFormat::Rgb, 4);
    b.write_char('H');
    b.write_char('i');
    b.write_char('\n');
    b.write_char('A');
    assert_eq!(a.buffer(), b.buffer());
    assert_eq!(a.cursor(), (10, 19));
}

#[test]
fn write_str_concatenation() {
    let mut a = writer(40, 60, PixelFormat::Rgb, 4);
    a.write_str("abcde");
    let mut b = writer(40, 60, PixelFormat::Rgb, 4);
    b.write_str("ab");
    b.write_str("cde");
    assert_eq!(a.buffer(), b.buffer());
    assert_eq!(a.cursor(), b.cursor());
}

#[test]
fn backspace_erases_last_char() {
    let mut w = writer(40, 30, PixelFormat::Rgb, 4);
    let before = w.buffer().to_vec();
    w.write_char('A');
    assert_ne!(w.buffer(), &before[..]);
    w.backspace();
    assert_eq!(w.cursor(), (1, 1));
    assert_eq!(w.buffer(), &before[..]);
}

#[test]
fn backspace_blanks_cell_of_previous_char() {
    let mut w = writer(40, 30, PixelFormat::Rgb, 4);
    w.write_char('A');
    w.write_char('B');
    w.backspace();
    w.backspace();
    assert_eq!(w.cursor(), (1, 1));
    assert!(w.buffer().iter().all(|b| *b == 0));
}

#[test]
fn backspace_at_line_start_goes_to_previous_line() {
    let mut w = writer(40, 60, PixelFormat::Rgb, 4);
    w.write_char('\n');
    assert_eq!(w.cursor(), (1, 19));
    w.backspace();
    assert_eq!(w.cursor(), (40 - 9, 1));
}

#[test]
fn backspace_at_home_does_nothing() {
    let mut w = writer(40, 30, PixelFormat::Rgb, 4);
    w.backspace();
    assert_eq!(w.cursor(), (1, 1));
    assert!(w.buffer().iter().all(|b| *b == 0));
}

#[test]
fn arrows_move_by_cells_and_lines() {
    let mut w = writer(40, 60, PixelFormat::Rgb, 4);
    w.arrow_right();
    assert_eq!(w.cursor(), (10, 1));
    w.arrow_down();
    assert_eq!(w.cursor(), (10, 19));
    w.arrow_left();
    assert_eq!(w.cursor(), (1, 19));
    w.arrow_up();
    assert_eq!(w.cursor(), (1, 1));
    // at the borders nothing moves
    w.arrow_left();
    w.arrow_up();
    assert_eq!(w.cursor(), (1, 1));
    assert!(w.buffer().iter().all(|b| *b == 0));
}

#[test]
fn arrows_stop_at_far_edges() {
    let mut w = writer(20, 30, PixelFormat::Rgb, 4);
    w.arrow_right(); // 1 + 9 = 10 < 20
    assert_eq!(w.cursor(), (10, 1));
    w.arrow_right(); // 10 + 9 = 19 < 20
    assert_eq!(w.cursor(), (19, 1));
    w.arrow_right(); // 19 + 9 >= 20
    assert_eq!(w.cursor(), (19, 1));
    w.arrow_down(); // 1 + 18 = 19 < 30
    assert_eq!(w.cursor(), (19, 19));
    w.arrow_down(); // 19 + 18 >= 30
    assert_eq!(w.cursor(), (19, 19));
}

#[test]
fn arrow_pairs_undo_each_other() {
    let mut w = writer(100, 100, PixelFormat::Rgb, 4);
    w.set_pos(18, 9);
    let start = w.cursor();
    w.arrow_right();
    w.arrow_left();
    assert_eq!(w.cursor(), start);
    w.arrow_left();
    w.arrow_right();
    assert_eq!(w.cursor(), start);
    w.arrow_down();
    w.arrow_up();
    assert_eq!(w.cursor(), start);
    w.arrow_up();
    w.arrow_down();
    assert_eq!(w.cursor(), start);
}

#[test]
fn tab_moves_four_cells_or_wraps() {
    let mut w = writer(80, 60, PixelFormat::Rgb, 4);
    w.tab();
    assert_eq!(w.cursor(), (37, 1));
    w.tab(); // 80 - 37 = 43 >= 36
    assert_eq!(w.cursor(), (73, 1));
    w.tab(); // 80 - 73 = 7 < 36
    assert_eq!(w.cursor(), (1, 19));
    assert!(w.buffer().iter().all(|b| *b == 0));
}

#[test]
fn set_pos_and_set_color() {
    let mut w = writer(80, 60, PixelFormat::Rgb, 4);
    w.set_pos(5, 7);
    assert_eq!(w.cursor(), (8, 6));
    w.set_color([1, 2, 3, 4]);
    assert_eq!(w.color(), [1, 2, 3, 4]);
}

#[test]
fn clear_blanks_and_homes() {
    let mut w = writer(40, 30, PixelFormat::Rgb, 4);
    w.write_str("xy");
    w.clear();
    assert_eq!(w.cursor(), (1, 1));
    assert!(w.buffer().iter().all(|b| *b == 0));
}

#[test]
fn handle_key_dispatch() {
    let mut w = writer(80, 60, PixelFormat::Rgb, 4);
    w.handle_key(KeyInput::Unicode('A'));
    assert_eq!(w.cursor(), (10, 1));
    w.handle_key(KeyInput::Unicode('\u{0008}'));
    assert_eq!(w.cursor(), (1, 1));
    assert!(w.buffer().iter().all(|b| *b == 0));
    w.handle_key(KeyInput::Unicode('\u{0009}'));
    assert_eq!(w.cursor(), (37, 1));
    w.handle_key(KeyInput::RawKey(KeyCode::ArrowLeft));
    assert_eq!(w.cursor(), (28, 1));
    w.handle_key(KeyInput::RawKey(KeyCode::ArrowRight));
    assert_eq!(w.cursor(), (37, 1));
    w.handle_key(KeyInput::RawKey(KeyCode::ArrowDown));
    assert_eq!(w.cursor(), (37, 19));
    w.handle_key(KeyInput::RawKey(KeyCode::ArrowUp));
    assert_eq!(w.cursor(), (37, 1));
    w.handle_key(KeyInput::RawKey(KeyCode::A));
    assert_eq!(w.cursor(), (37, 1));
    assert!(w.buffer().iter().all(|b| *b == 0));
}

#[test]
fn wider_stride_leaves_padding_untouched() {
    let i = FrameInfo {
        byte_len: 48 * 30 * 4,
        width: 40,
        height: 30,
        pixel_format: PixelFormat::Rgb,
        bytes_per_pixel: 4,
        stride: 48,
    };
    let mut w = FrameBufferWriter::new(vec![7; i.byte_len], i);
    w.write_char('A');
    assert_eq!(pixel(&w, 4, 4), vec![165, 165, 82, 0]);
    let off = (4 * 48 + 4) * 4;
    assert_eq!(w.buffer()[off], 165);
}

#[test]
fn fits_checks_match_the_drawing_conditions() {
    let w = writer(40, 30, PixelFormat::Rgb, 4);
    assert!(w.write_char_fits('A'));
    assert!(w.write_char_fits('\n'));
    assert!(w.write_char_fits('\r'));
    assert!(w.backspace_fits());
    assert!(w.tab_fits());
    assert!(w.cell_fits(1, 1));
    // a cell ending at pixel (39, 29), the last one, fits; one column further does not
    assert!(w.cell_fits(31, 14));
    assert!(!w.cell_fits(32, 14));
    assert!(!w.cell_fits(1, 15)); // rows 15..31 reach past row 29
    let u = writer(40, 30, PixelFormat::Unknown { red_position: 0, green_position: 8, blue_position: 16 }, 4);
    assert!(!u.write_char_fits('A'));
    assert!(u.write_char_fits('\n'));
    let wide = writer(40, 30, PixelFormat::Rgb, 5);
    assert!(!wide.write_char_fits('A'));
}

#[test]
fn fits_checks_for_cursor_moves() {
    let mut w = writer(40, 30, PixelFormat::Rgb, 4);
    w.set_pos(0, 1); // x = 2: a backspace would step below zero
    assert!(!w.backspace_fits());
    assert!(!w.handle_key_fits(KeyInput::Unicode('\u{0008}')));
    assert!(!w.handle_key_fits(KeyInput::RawKey(KeyCode::ArrowLeft)));
    assert!(w.handle_key_fits(KeyInput::RawKey(KeyCode::ArrowRight)));
    w.set_pos(0, 100); // x past the width: a tab would underflow
    assert!(!w.tab_fits());
    assert!(!w.handle_key_fits(KeyInput::Unicode('\u{0009}')));
    assert!(w.handle_key_fits(KeyInput::RawKey(KeyCode::A)));
    let mut v = writer(40, 30, PixelFormat::Rgb, 4);
    v.set_pos(1, 0); // y = 2: an up arrow would step below zero
    assert!(!v.handle_key_fits(KeyInput::RawKey(KeyCode::ArrowUp)));
    v.set_pos(usize::MAX - 2, 0);
    assert!(!v.handle_key_fits(KeyInput::RawKey(KeyCode::ArrowDown)));
    assert!(!v.write_char_fits('\n'));
}

#[test]
fn cursor_moves_keep_pixels() {
    let mut w = writer(100, 100, PixelFormat::Rgb, 4);
    w.write_str("ab\ncd");
    let drawn = w.buffer().to_vec();
    w.arrow_up();
    w.arrow_right();
    w.arrow_down();
    w.arrow_left();
    w.tab();
    w.write_char('\n');
    w.write_char('\r');
    assert_eq!(w.buffer(), &drawn[..]);
}

#[test]
fn operations_keep_frame() {
    let mut w = writer(60, 40, PixelFormat::Bgr, 4);
    let info = w.info();
    let len = w.buffer().len();
    w.set_color([9, 8, 7, 6]);
    w.write_str("hello");
    w.backspace();
    w.tab();
    w.write_str("xyzxyz");
    w.handle_key(KeyInput::RawKey(KeyCode::ArrowUp));
    assert_eq!(w.buffer().len(), len);
    assert_eq!(w.info(), info);
    assert_eq!(w.color(), [9, 8, 7, 6]);
}

#[test]
fn color_never_reaches_the_framebuffer() {
    let mut a = writer(80, 60, PixelFormat::Rgb, 4);
    let mut b = writer(80, 60, PixelFormat::Rgb, 4);
    b.set_color([1, 2, 3, 4]);
    for w in [&mut a, &mut b] {
        w.write_str("color\tx");
        w.backspace();
        w.handle_key(KeyInput::Unicode('q'));
    }
    assert_eq!(a.buffer(), b.buffer());
    assert_eq!(a.cursor(), b.cursor());
}
