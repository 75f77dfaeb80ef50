//! Properties that relate the writer's operations to one another.

use vstd::prelude::*;
use crate::font::{char_height, char_width, glyph_rows, is_cell_shaped};
use crate::frame::{
    blank_block, block_covers, block_ok, block_pixel_ok, lemma_blank_over_block, lemma_paint_block_blank,
    lemma_paint_block_outside, lemma_zero_pixel_bytes, PixelFormat,
    lemma_paint_block_len, lemma_paint_block_pixel, pixel_bytes, pixel_offset,
};
use crate::interrupts::{InterruptIndex, PIC_1_OFFSET, PIC_2_OFFSET};
use crate::keys::{key_ok, key_state, KeyCode, KeyInput, BACKSPACE_CHAR, TAB_CHAR};
use crate::writer::{
    arrow_down_state, arrow_left_state, arrow_right_state, arrow_up_state, backspace_ok,
    backspace_state, carriage_return_state, cleared_state, erase_cell_state, line_height,
    newline_state, tab_state, write_pixel_state, write_char_ok, write_char_state, write_chars_ok, write_chars_state,
    WriterState, BORDER_PADDING, LETTER_SPACING, LINE_SPACING,
};

verus! {

/// Whether `a` and `b` have framebuffers of one length, one layout and one color.
pub open spec fn same_frame(a: WriterState, b: WriterState) -> bool {
    &&& a.fb.len() == b.fb.len()
    &&& a.info == b.info
    &&& a.color == b.color
}

/// Whether every byte of the glyph cell at the cursor of `s` is zero.
pub open spec fn cursor_cell_is_blank(s: WriterState) -> bool {
    forall|b: int|
        0 <= b < s.fb.len() && block_covers(
            s.info,
            s.x as int,
            s.y as int,
            char_width() as int,
            char_height() as int,
            b,
        ) ==> #[trigger] s.fb[b] == 0u8
}

/// No operation changes the framebuffer's length, its layout or the color.
pub proof fn law_operations_keep_frame(s: WriterState, c: char, key: KeyInput)
    ensures
        same_frame(s, write_char_state(s, c)),
        same_frame(s, backspace_state(s)),
        same_frame(s, tab_state(s)),
        same_frame(s, arrow_up_state(s)),
        same_frame(s, arrow_down_state(s)),
        same_frame(s, arrow_left_state(s)),
        same_frame(s, arrow_right_state(s)),
        same_frame(s, cleared_state(s)),
        same_frame(s, key_state(s, key)),
{
    lemma_write_char_keeps_frame(s, c);
    lemma_backspace_keeps_frame(s);
    match key {
        KeyInput::Unicode(ch) => {
            lemma_write_char_keeps_frame(s, ch);
        },
        KeyInput::RawKey(_) => {},
    }
}

proof fn lemma_write_char_keeps_frame(s: WriterState, c: char)
    ensures
        same_frame(s, write_char_state(s, c)),
{
    if c != '\n' && c != '\r' {
        let s1 = if s.x + char_width() >= s.info.width {
            newline_state(s)
        } else {
            s
        };
        let s2 = if s1.y + char_height() + BORDER_PADDING >= s1.info.height {
            cleared_state(s1)
        } else {
            s1
        };
        lemma_paint_block_len(s2.fb, s2.info, s2.x as int, s2.y as int, glyph_rows(c));
    }
}

proof fn lemma_backspace_keeps_frame(s: WriterState)
    ensures
        same_frame(s, backspace_state(s)),
{
    let blank = blank_block(char_width() as int, char_height() as int);
    if s.x > BORDER_PADDING {
        let t = WriterState { x: (s.x - char_width()) as usize, ..s };
        lemma_paint_block_len(s.fb, s.info, t.x as int, t.y as int, blank);
    } else if s.y >= char_height() + LINE_SPACING + BORDER_PADDING {
        let t = WriterState {
            x: (s.info.width - (char_width() + LETTER_SPACING)) as usize,
            y: (s.y - line_height()) as usize,
            ..s
        };
        lemma_paint_block_len(s.fb, s.info, t.x as int, t.y as int, blank);
    }
}

/// Writing a string keeps the framebuffer's length, its layout and the color.
pub proof fn law_write_chars_keep_frame(s: WriterState, cs: Seq<char>)
    ensures
        same_frame(s, write_chars_state(s, cs)),
    decreases cs.len(),
{
    if cs.len() > 0 {
        law_write_chars_keep_frame(s, cs.drop_last());
        lemma_write_char_keeps_frame(write_chars_state(s, cs.drop_last()), cs.last());
    }
}

/// Moving the cursor, by an arrow key, a tab, a line feed or a carriage return,
/// leaves the framebuffer bytes unchanged.
pub proof fn law_cursor_moves_keep_pixels(s: WriterState)
    ensures
        arrow_up_state(s).fb == s.fb,
        arrow_down_state(s).fb == s.fb,
        arrow_left_state(s).fb == s.fb,
        arrow_right_state(s).fb == s.fb,
        tab_state(s).fb == s.fb,
        newline_state(s).fb == s.fb,
        carriage_return_state(s).fb == s.fb,
        write_char_state(s, '\n').fb == s.fb,
        write_char_state(s, '\r').fb == s.fb,
{
}

/// Writing `a` and then `b` is writing their concatenation, and completes exactly
/// when both parts do.
pub proof fn law_write_chars_concat(s: WriterState, a: Seq<char>, b: Seq<char>)
    ensures
        write_chars_state(s, a + b) == write_chars_state(write_chars_state(s, a), b),
        write_chars_ok(s, a + b) == (write_chars_ok(s, a) && write_chars_ok(
            write_chars_state(s, a),
            b,
        )),
    decreases b.len(),
{
    if b.len() == 0 {
        assert(a + b =~= a);
    } else {
        law_write_chars_concat(s, a, b.drop_last());
        assert((a + b).drop_last() =~= a + b.drop_last());
        assert((a + b).last() == b.last());
    }
}

/// The left arrow undoes a right arrow that moved the cursor.
pub proof fn law_arrow_left_undoes_right(s: WriterState)
    requires
        s.x + char_width() < s.info.width,
    ensures
        arrow_left_state(arrow_right_state(s)) == s,
{
}

/// The right arrow undoes a left arrow that moved the cursor, from a position
/// left of the right edge.
pub proof fn law_arrow_right_undoes_left(s: WriterState)
    requires
        BORDER_PADDING < s.x < s.info.width,
        s.x >= char_width(),
    ensures
        arrow_right_state(arrow_left_state(s)) == s,
{
}

/// The up arrow undoes a down arrow that moved the cursor.
pub proof fn law_arrow_up_undoes_down(s: WriterState)
    requires
        s.y + line_height() < s.info.height,
    ensures
        arrow_up_state(arrow_down_state(s)) == s,
{
}

/// The down arrow undoes an up arrow that moved the cursor, from a position above
/// the bottom edge.
pub proof fn law_arrow_down_undoes_up(s: WriterState)
    requires
        BORDER_PADDING < s.y < s.info.height,
        s.y >= line_height(),
    ensures
        arrow_down_state(arrow_up_state(s)) == s,
{
}

/// A backspace right after writing a character that neither wrapped nor cleared
/// the screen puts the cursor back where the character was drawn and leaves the
/// framebuffer as if that cell had only been blanked; where the cell was blank
/// before, the writer is back in the state it started from.
pub proof fn law_backspace_erases_written_char(s: WriterState, c: char)
    requires
        c != '\n',
        c != '\r',
        s.x + char_width() < s.info.width,
        s.y + char_height() + BORDER_PADDING < s.info.height,
        write_char_ok(s, c),
        is_cell_shaped(glyph_rows(c)),
    ensures
        backspace_ok(write_char_state(s, c)),
        backspace_state(write_char_state(s, c)) == erase_cell_state(s),
        cursor_cell_is_blank(s) ==> backspace_state(write_char_state(s, c)) == s,
{
    let w = char_width();
    let h = char_height();
    let t = write_char_state(s, c);
    assert(t.x == s.x + w);
    let back = WriterState { x: (t.x - w) as usize, ..t };
    assert(back.x == s.x);
    if w > 0 {
        assert(block_pixel_ok(s.info, s.fb.len() as int, s.x as int, s.y as int, 0, 0));
    }
    lemma_blank_over_block(s.fb, s.info, s.x as int, s.y as int, glyph_rows(c), w as nat, h as nat);
    lemma_paint_block_len(s.fb, s.info, s.x as int, s.y as int, glyph_rows(c));
    assert(backspace_state(t) == erase_cell_state(s));
    if cursor_cell_is_blank(s) {
        let e = erase_cell_state(s).fb;
        lemma_paint_block_len(s.fb, s.info, s.x as int, s.y as int, blank_block(w as int, h as int));
        assert forall|b: int| 0 <= b < s.fb.len() implies e[b] == s.fb[b] by {
            lemma_paint_block_blank(s.fb, s.info, s.x as int, s.y as int, w as nat, h as nat, b);
        }
        assert(e =~= s.fb);
    }
}

/// Typing a character key that neither wraps nor clears the screen and then the
/// backspace key leaves the screen as if the cell under the cursor had only been
/// blanked, with the cursor where it was.
pub proof fn law_backspace_key_erases_typed_char(s: WriterState, c: char)
    requires
        c != '\n',
        c != '\r',
        c != BACKSPACE_CHAR,
        c != TAB_CHAR,
        s.x + char_width() < s.info.width,
        s.y + char_height() + BORDER_PADDING < s.info.height,
        key_ok(s, KeyInput::Unicode(c)),
        is_cell_shaped(glyph_rows(c)),
    ensures
        key_ok(key_state(s, KeyInput::Unicode(c)), KeyInput::Unicode(BACKSPACE_CHAR)),
        key_state(key_state(s, KeyInput::Unicode(c)), KeyInput::Unicode(BACKSPACE_CHAR))
            == erase_cell_state(s),
{
    law_backspace_erases_written_char(s, c);
}

/// The current color never reaches the framebuffer: two writers that differ only
/// in their color end in states that differ only in their color after drawing a
/// pixel, writing a character, a string, a backspace or any key press.
pub proof fn law_color_never_drawn(s: WriterState, t: WriterState, c: char, cs: Seq<char>, key: KeyInput)
    requires
        t == (WriterState { color: t.color, ..s }),
    ensures
        forall|x: int, y: int, i: u8|
            #[trigger] write_pixel_state(t, x, y, i) == (WriterState {
                color: t.color,
                ..write_pixel_state(s, x, y, i)
            }),
        write_char_state(t, c) == (WriterState { color: t.color, ..write_char_state(s, c) }),
        backspace_state(t) == (WriterState { color: t.color, ..backspace_state(s) }),
        key_state(t, key) == (WriterState { color: t.color, ..key_state(s, key) }),
        write_chars_state(t, cs) == (WriterState { color: t.color, ..write_chars_state(s, cs) }),
    decreases cs.len(),
{
    if cs.len() > 0 {
        law_color_never_drawn(s, t, c, cs.drop_last(), key);
        law_color_never_drawn(
            write_chars_state(s, cs.drop_last()),
            write_chars_state(t, cs.drop_last()),
            cs.last(),
            seq![],
            key,
        );
    }
}

/// A character written where it neither wraps nor clears the screen, on a line
/// whose glyph cell fits within the stride, leaves in each pixel of its cell the
/// bytes of that glyph pixel's intensity.
pub proof fn law_write_char_draws_glyph(s: WriterState, c: char, u: int, v: int, k: int)
    requires
        c != '\n',
        c != '\r',
        s.x + char_width() < s.info.width,
        s.y + char_height() + BORDER_PADDING < s.info.height,
        s.x + char_width() <= s.info.stride,
        write_char_ok(s, c),
        is_cell_shaped(glyph_rows(c)),
        0 <= u < char_height(),
        0 <= v < char_width(),
        0 <= k < s.info.bytes_per_pixel,
    ensures
        write_char_state(s, c).fb[pixel_offset(s.info, s.x + v, s.y + u) + k] == pixel_bytes(
            s.info.pixel_format,
            glyph_rows(c)[u][v],
        )[k],
{
    assert(block_pixel_ok(s.info, s.fb.len() as int, s.x as int, s.y as int, u, v));
    lemma_paint_block_pixel(
        s.fb,
        s.info,
        s.x as int,
        s.y as int,
        glyph_rows(c),
        char_width() as int,
        u,
        v,
        k,
    );
}

/// Where a printable character lands: at the cursor; at the start of the next
/// line when its cell would reach the right edge; at the home position, on a
/// cleared screen, when the cell of the line it would go on would reach the
/// bottom edge. The cursor ends one cell to the right of the glyph; every byte
/// outside the glyph's cell is what it was, or zero where the screen was cleared.
pub proof fn law_write_char_placement(s: WriterState, c: char)
    requires
        c != '\n',
        c != '\r',
        write_char_ok(s, c),
        is_cell_shaped(glyph_rows(c)),
    ensures
        ({
            let wraps = s.x + char_width() >= s.info.width;
            let line_y: int = if wraps {
                s.y + char_height() + LINE_SPACING
            } else {
                s.y as int
            };
            let clears = line_y + char_height() + BORDER_PADDING >= s.info.height;
            let cx: int = if wraps || clears {
                1
            } else {
                s.x as int
            };
            let cy: int = if clears {
                1
            } else {
                line_y
            };
            let t = write_char_state(s, c);
            &&& t.x == cx + char_width()
            &&& t.y == cy
            &&& t.info == s.info
            &&& t.color == s.color
            &&& t.fb.len() == s.fb.len()
            &&& forall|b: int|
                0 <= b < s.fb.len() && !block_covers(
                    s.info,
                    cx,
                    cy,
                    char_width() as int,
                    char_height() as int,
                    b,
                ) ==> #[trigger] t.fb[b] == if clears {
                    0u8
                } else {
                    s.fb[b]
                }
        }),
{
    let s1 = if s.x + char_width() >= s.info.width {
        newline_state(s)
    } else {
        s
    };
    let s2 = if s1.y + char_height() + BORDER_PADDING >= s1.info.height {
        cleared_state(s1)
    } else {
        s1
    };
    let t = write_char_state(s, c);
    lemma_paint_block_len(s2.fb, s2.info, s2.x as int, s2.y as int, glyph_rows(c));
    assert forall|b: int|
        0 <= b < s.fb.len() && !block_covers(
            s.info,
            s2.x as int,
            s2.y as int,
            char_width() as int,
            char_height() as int,
            b,
        ) implies #[trigger] t.fb[b] == s2.fb[b] by {
        lemma_paint_block_outside(
            s2.fb,
            s2.info,
            s2.x as int,
            s2.y as int,
            glyph_rows(c),
            char_width() as int,
            char_height() as int,
            b,
        );
    }
}

/// A character that wraps or clears the screen still has its glyph drawn, pixel
/// by pixel, at the place `law_write_char_placement` gives, where that cell fits
/// within the stride.
pub proof fn law_write_char_glyph_pixels(s: WriterState, c: char, u: int, v: int, k: int)
    requires
        c != '\n',
        c != '\r',
        write_char_ok(s, c),
        is_cell_shaped(glyph_rows(c)),
        0 <= u < char_height(),
        0 <= v < char_width(),
        0 <= k < s.info.bytes_per_pixel,
    ensures
        ({
            let wraps = s.x + char_width() >= s.info.width;
            let line_y: int = if wraps {
                s.y + char_height() + LINE_SPACING
            } else {
                s.y as int
            };
            let clears = line_y + char_height() + BORDER_PADDING >= s.info.height;
            let cx: int = if wraps || clears {
                1
            } else {
                s.x as int
            };
            let cy: int = if clears {
                1
            } else {
                line_y
            };
            cx + char_width() <= s.info.stride ==> write_char_state(s, c).fb[pixel_offset(
                s.info,
                cx + v,
                cy + u,
            ) + k] == pixel_bytes(s.info.pixel_format, glyph_rows(c)[u][v])[k]
        }),
{
    let s1 = if s.x + char_width() >= s.info.width {
        newline_state(s)
    } else {
        s
    };
    let s2 = if s1.y + char_height() + BORDER_PADDING >= s1.info.height {
        cleared_state(s1)
    } else {
        s1
    };
    if s2.x + char_width() <= s.info.stride {
        assert(block_pixel_ok(s2.info, s2.fb.len() as int, s2.x as int, s2.y as int, u, v));
        lemma_paint_block_pixel(
            s2.fb,
            s2.info,
            s2.x as int,
            s2.y as int,
            glyph_rows(c),
            char_width() as int,
            u,
            v,
            k,
        );
    }
}

/// Writing a string writes each of its characters in turn: the empty string
/// changes nothing, a one-character string is that character, and appending a
/// character writes it after the rest.
pub proof fn law_write_chars_each_char(s: WriterState, cs: Seq<char>, c: char)
    ensures
        write_chars_state(s, Seq::<char>::empty()) == s,
        write_chars_state(s, seq![c]) == write_char_state(s, c),
        write_chars_state(s, cs.push(c)) == write_char_state(write_chars_state(s, cs), c),
        write_chars_ok(s, cs.push(c)) == (write_chars_ok(s, cs) && write_char_ok(
            write_chars_state(s, cs),
            c,
        )),
{
    assert(cs.push(c).drop_last() =~= cs);
    assert(seq![c].drop_last() =~= Seq::<char>::empty());
}

/// A backspace moves the cursor one cell left within a line, or from the start of
/// a line below the first to the last cell of the line above, and blanks exactly
/// the cell it moves to: its bytes become zero and every other byte keeps its
/// value. At the start of the first line it changes nothing.
pub proof fn law_backspace_erases_target_cell(s: WriterState)
    requires
        s.x > BORDER_PADDING ==> {
            &&& s.x >= char_width()
            &&& block_ok(
                s.info,
                s.fb.len() as int,
                s.x - char_width(),
                s.y as int,
                char_width() as int,
                char_height() as int,
            )
        },
        s.x <= BORDER_PADDING && s.y >= char_height() + LINE_SPACING + BORDER_PADDING ==> {
            &&& s.info.width >= char_width()
            &&& block_ok(
                s.info,
                s.fb.len() as int,
                s.info.width - char_width(),
                s.y - (char_height() + LINE_SPACING),
                char_width() as int,
                char_height() as int,
            )
        },
    ensures
        ({
            let in_line = s.x > BORDER_PADDING;
            let up = !in_line && s.y >= char_height() + LINE_SPACING + BORDER_PADDING;
            let tx: int = if in_line {
                s.x - char_width()
            } else {
                s.info.width - char_width()
            };
            let ty: int = if in_line {
                s.y as int
            } else {
                s.y - (char_height() + LINE_SPACING)
            };
            let t = backspace_state(s);
            &&& !in_line && !up ==> t == s
            &&& in_line || up ==> {
                &&& t.x == tx
                &&& t.y == ty
                &&& t.info == s.info
                &&& t.color == s.color
                &&& t.fb.len() == s.fb.len()
                &&& forall|b: int|
                    0 <= b < s.fb.len() ==> #[trigger] t.fb[b] == if block_covers(
                        s.info,
                        tx,
                        ty,
                        char_width() as int,
                        char_height() as int,
                        b,
                    ) {
                        0u8
                    } else {
                        s.fb[b]
                    }
            }
        }),
{
    let in_line = s.x > BORDER_PADDING;
    let up = !in_line && s.y >= char_height() + LINE_SPACING + BORDER_PADDING;
    if in_line || up {
        let tx: int = if in_line {
            s.x - char_width()
        } else {
            s.info.width - char_width()
        };
        let ty: int = if in_line {
            s.y as int
        } else {
            s.y - (char_height() + LINE_SPACING)
        };
        let w = char_width() as nat;
        let h = char_height() as nat;
        assert(block_pixel_ok(s.info, s.fb.len() as int, tx, ty, 0, 0));
        let t = backspace_state(s);
        lemma_paint_block_len(s.fb, s.info, tx, ty, blank_block(w as int, h as int));
        assert forall|b: int| 0 <= b < s.fb.len() implies #[trigger] t.fb[b] == if block_covers(
            s.info,
            tx,
            ty,
            w as int,
            h as int,
            b,
        ) {
            0u8
        } else {
            s.fb[b]
        } by {
            lemma_paint_block_blank(s.fb, s.info, tx, ty, w, h, b);
        }
    }
}

/// A tab moves the cursor `TAB_WIDTH` character cells right, from wherever it
/// stands, where the line has room for them, and to the start of the next line
/// where it has not; it never changes the framebuffer.
pub proof fn law_tab_moves_four_cells(s: WriterState)
    requires
        s.x <= s.info.width,
        s.y + char_height() + LINE_SPACING <= usize::MAX,
    ensures
        tab_state(s).fb == s.fb,
        tab_state(s).info == s.info,
        s.info.width - s.x >= 4 * char_width() ==> tab_state(s).x == s.x + 4 * char_width()
            && tab_state(s).y == s.y,
        s.info.width - s.x < 4 * char_width() ==> tab_state(s).x == BORDER_PADDING
            && tab_state(s).y == s.y + char_height() + LINE_SPACING,
{
}

/// Where four right-arrow moves all stay left of the right edge, a tab ends where
/// they do.
pub proof fn law_tab_is_four_right_arrows(s: WriterState)
    requires
        s.x + 4 * char_width() < s.info.width,
    ensures
        tab_state(s) == arrow_right_state(arrow_right_state(arrow_right_state(arrow_right_state(s)))),
{
}

/// The arrow keys move the cursor by one character cell or one line, and only
/// the cursor: right and down where the new position stays short of the right or
/// bottom edge, left and up where the cursor is past the border.
pub proof fn law_arrows_move_one_cell(s: WriterState)
    requires
        s.x > BORDER_PADDING ==> s.x >= char_width(),
        s.y > BORDER_PADDING ==> s.y >= char_height() + LINE_SPACING,
    ensures
        arrow_right_state(s) == (if s.x + char_width() < s.info.width {
            WriterState { x: (s.x + char_width()) as usize, ..s }
        } else {
            s
        }),
        arrow_left_state(s) == (if s.x > BORDER_PADDING {
            WriterState { x: (s.x - char_width()) as usize, ..s }
        } else {
            s
        }),
        arrow_down_state(s) == (if s.y + char_height() + LINE_SPACING < s.info.height {
            WriterState { y: (s.y + char_height() + LINE_SPACING) as usize, ..s }
        } else {
            s
        }),
        arrow_up_state(s) == (if s.y > BORDER_PADDING {
            WriterState { y: (s.y - (char_height() + LINE_SPACING)) as usize, ..s }
        } else {
            s
        }),
        arrow_right_state(s).x == s.x || arrow_right_state(s).x == s.x + char_width(),
        arrow_down_state(s).y == s.y || arrow_down_state(s).y == s.y + char_height() + LINE_SPACING,
{
}

/// A line feed starts the next line and a carriage return goes back to the start
/// of the line; neither draws anything.
pub proof fn law_line_feed_and_carriage_return(s: WriterState)
    requires
        s.y + char_height() + LINE_SPACING <= usize::MAX,
    ensures
        write_char_state(s, '\n') == (WriterState {
            x: 1,
            y: (s.y + char_height() + LINE_SPACING) as usize,
            ..s
        }),
        write_char_state(s, '\r') == (WriterState { x: 1, ..s }),
{
}

/// Clearing zeroes every framebuffer byte, keeps its length, and puts the cursor
/// at the home position.
pub proof fn law_clear_blanks_screen(s: WriterState)
    ensures
        cleared_state(s).fb.len() == s.fb.len(),
        forall|b: int| 0 <= b < s.fb.len() ==> #[trigger] cleared_state(s).fb[b] == 0u8,
        cleared_state(s).x == 1,
        cleared_state(s).y == 1,
        cleared_state(s).info == s.info,
        cleared_state(s).color == s.color,
{
}

/// A key press with a character other than backspace and tab writes that
/// character, the Enter key's line feed included, which starts the next line;
/// the backspace and tab characters erase and tab; the arrow keys move the
/// cursor; other keys without a character change nothing.
pub proof fn law_key_presses(s: WriterState, c: char, k: KeyCode)
    ensures
        c != BACKSPACE_CHAR && c != TAB_CHAR ==> key_state(s, KeyInput::Unicode(c)) == write_char_state(
            s,
            c,
        ) && key_ok(s, KeyInput::Unicode(c)) == write_char_ok(s, c),
        s.y + char_height() + LINE_SPACING <= usize::MAX ==> key_state(
            s,
            KeyInput::Unicode('\n'),
        ) == (WriterState {
            x: 1,
            y: (s.y + char_height() + LINE_SPACING) as usize,
            ..s
        }),
        key_state(s, KeyInput::Unicode(BACKSPACE_CHAR)) == backspace_state(s),
        key_state(s, KeyInput::Unicode(TAB_CHAR)) == tab_state(s),
        key_state(s, KeyInput::RawKey(KeyCode::ArrowUp)) == arrow_up_state(s),
        key_state(s, KeyInput::RawKey(KeyCode::ArrowDown)) == arrow_down_state(s),
        key_state(s, KeyInput::RawKey(KeyCode::ArrowLeft)) == arrow_left_state(s),
        key_state(s, KeyInput::RawKey(KeyCode::ArrowRight)) == arrow_right_state(s),
        k != KeyCode::ArrowUp && k != KeyCode::ArrowDown && k != KeyCode::ArrowLeft && k
            != KeyCode::ArrowRight ==> key_state(s, KeyInput::RawKey(k)) == s,
{
}

/// The stored bytes of a pixel: red, green and blue at full, full and half
/// intensity for RGB; the same three bytes in reverse order for BGR; a single
/// grayscale byte of 0xf above intensity 200, else 0, for U8; the fourth byte is
/// always zero, and zero intensity stores only zeros.
pub proof fn law_pixel_bytes(i: u8)
    ensures
        pixel_bytes(PixelFormat::Rgb, i).len() == 4,
        pixel_bytes(PixelFormat::Rgb, i)[0] == i,
        pixel_bytes(PixelFormat::Rgb, i)[1] == i,
        pixel_bytes(PixelFormat::Rgb, i)[2] == i / 2,
        pixel_bytes(PixelFormat::Rgb, i)[3] == 0,
        pixel_bytes(PixelFormat::Bgr, i).len() == 4,
        pixel_bytes(PixelFormat::Bgr, i)[0] == pixel_bytes(PixelFormat::Rgb, i)[2],
        pixel_bytes(PixelFormat::Bgr, i)[1] == pixel_bytes(PixelFormat::Rgb, i)[1],
        pixel_bytes(PixelFormat::Bgr, i)[2] == pixel_bytes(PixelFormat::Rgb, i)[0],
        pixel_bytes(PixelFormat::Bgr, i)[3] == 0,
        pixel_bytes(PixelFormat::U8, i).len() == 4,
        pixel_bytes(PixelFormat::U8, i)[0] == (if i > 200 {
            15u8
        } else {
            0u8
        }),
        pixel_bytes(PixelFormat::U8, i)[1] == 0,
        pixel_bytes(PixelFormat::U8, i)[2] == 0,
        pixel_bytes(PixelFormat::U8, i)[3] == 0,
        forall|f: PixelFormat, j: int| 0 <= j < 4 ==> #[trigger] pixel_bytes(f, 0u8)[j] == 0u8,
{
    assert forall|f: PixelFormat, j: int| 0 <= j < 4 implies #[trigger] pixel_bytes(f, 0u8)[j] == 0u8 by {
        lemma_zero_pixel_bytes(f, j);
    }
}

/// The keyboard's vector comes right after the timer's, and both lie on the
/// primary PIC.
pub proof fn law_interrupt_vectors()
    ensures
        InterruptIndex::Keyboard.as_u8() == InterruptIndex::Timer.as_u8() + 1,
        PIC_1_OFFSET <= InterruptIndex::Timer.as_u8() < PIC_2_OFFSET,
        PIC_1_OFFSET <= InterruptIndex::Keyboard.as_u8() < PIC_2_OFFSET,
{
}

} // verus!
