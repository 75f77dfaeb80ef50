//! A cursor-driven text writer on a framebuffer.

use vstd::prelude::*;
use crate::font::{
    char_height, char_raster_width, char_width, get_char_raster, glyph_rows, is_cell_shaped,
    Glyph, CHAR_RASTER_HEIGHT,
};
use crate::frame::{
    blank_block, block_fits, block_ok, block_pixel_ok, paint_block, paint_pixel, paint_row, pixel_color,
    pixel_ok, FrameInfo,
};

verus! {

/// Vertical gap in pixels between two lines of text.
pub const LINE_SPACING: usize = 2;

/// Horizontal gap in pixels between two characters.
pub const LETTER_SPACING: usize = 0;

/// Distance in pixels of the home position from the top and left edges.
pub const BORDER_PADDING: usize = 1;

/// What a writer holds, as plain values: the framebuffer bytes, the layout, the
/// cursor and the current color.
pub ghost struct WriterState {
    pub fb: Seq<u8>,
    pub info: FrameInfo,
    pub x: usize,
    pub y: usize,
    pub color: Seq<u8>,
}

/// Writes text into a framebuffer, one glyph cell at a time, from a cursor.
pub struct FrameBufferWriter {
    framebuffer: Vec<u8>,
    info: FrameInfo,
    x_pos: usize,
    y_pos: usize,
    color: [u8; 4],
}

impl View for FrameBufferWriter {
    type V = WriterState;

    closed spec fn view(&self) -> WriterState {
        WriterState {
            fb: self.framebuffer@,
            info: self.info,
            x: self.x_pos,
            y: self.y_pos,
            color: self.color@,
        }
    }
}

/// Distance in pixels between the tops of two consecutive lines.
pub open spec fn line_height() -> int {
    char_height() + LINE_SPACING
}

/// `s` with the cursor at the start of the next line.
pub open spec fn newline_state(s: WriterState) -> WriterState {
    WriterState { x: BORDER_PADDING, y: (s.y + line_height()) as usize, ..s }
}

/// `s` with the cursor at the start of its line.
pub open spec fn carriage_return_state(s: WriterState) -> WriterState {
    WriterState { x: BORDER_PADDING, ..s }
}

/// `s` with every framebuffer byte zero and the cursor at the home position.
pub open spec fn cleared_state(s: WriterState) -> WriterState {
    WriterState {
        fb: Seq::new(s.fb.len(), |i: int| 0u8),
        x: BORDER_PADDING,
        y: BORDER_PADDING,
        ..s
    }
}

/// Whether the glyph cell at (`x`, `y`) of state `s` can be drawn.
pub open spec fn cell_ok(s: WriterState, x: int, y: int) -> bool {
    block_ok(s.info, s.fb.len() as int, x, y, char_width() as int, char_height() as int)
}

/// `s` after drawing pixel (`x`, `y`) with the given intensity.
pub open spec fn write_pixel_state(s: WriterState, x: int, y: int, intensity: u8) -> WriterState {
    WriterState { fb: paint_pixel(s.fb, s.info, x, y, intensity), ..s }
}

/// Character cells a tab advances.
pub const TAB_WIDTH: usize = 4;

/// `s` with the glyph cell at its cursor blanked to zero intensity.
pub open spec fn erase_cell_state(s: WriterState) -> WriterState {
    WriterState {
        fb: paint_block(
            s.fb,
            s.info,
            s.x as int,
            s.y as int,
            blank_block(char_width() as int, char_height() as int),
        ),
        ..s
    }
}

/// The state after writing `c`: a line feed starts the next line, a carriage
/// return goes back to the start of the line; any other character wraps to the
/// next line when its cell would reach the right edge, clears the screen when its
/// cell would reach the bottom edge, is drawn at the cursor, and advances it by
/// one cell.
pub open spec fn write_char_state(s: WriterState, c: char) -> WriterState {
    if c == '\n' {
        newline_state(s)
    } else if c == '\r' {
        carriage_return_state(s)
    } else {
        let s1 = if s.x + char_width() >= s.info.width {
            newline_state(s)
        } else {
            s
        };
        let s2 = if s1.y + char_height() + BORDER_PADDING >= s1.info.height {
            cleared_state(s1)
        } else {
            s1
        };
        WriterState {
            fb: paint_block(s2.fb, s2.info, s2.x as int, s2.y as int, glyph_rows(c)),
            x: (s2.x + char_width() + LETTER_SPACING) as usize,
            ..s2
        }
    }
}

/// Whether writing `c` in state `s` completes: no position overflows and the
/// glyph cell lies inside the framebuffer in a format the writer draws in.
pub open spec fn write_char_ok(s: WriterState, c: char) -> bool {
    if c == '\n' {
        s.y + line_height() <= usize::MAX
    } else if c == '\r' {
        true
    } else {
        let s1 = if s.x + char_width() >= s.info.width {
            newline_state(s)
        } else {
            s
        };
        let s2 = if s1.y + char_height() + BORDER_PADDING >= s1.info.height {
            cleared_state(s1)
        } else {
            s1
        };
        &&& s.x + char_width() <= usize::MAX
        &&& s.x + char_width() >= s.info.width ==> s.y + line_height() <= usize::MAX
        &&& s1.y + char_height() + BORDER_PADDING <= usize::MAX
        &&& cell_ok(s2, s2.x as int, s2.y as int)
        &&& s2.x + char_width() + LETTER_SPACING <= usize::MAX
    }
}

/// The state after writing the characters of `cs` one after another.
pub open spec fn write_chars_state(s: WriterState, cs: Seq<char>) -> WriterState
    decreases cs.len(),
{
    if cs.len() == 0 {
        s
    } else {
        write_char_state(write_chars_state(s, cs.drop_last()), cs.last())
    }
}

/// Whether writing the characters of `cs` one after another completes.
pub open spec fn write_chars_ok(s: WriterState, cs: Seq<char>) -> bool
    decreases cs.len(),
{
    cs.len() == 0 || (write_chars_ok(s, cs.drop_last()) && write_char_ok(
        write_chars_state(s, cs.drop_last()),
        cs.last(),
    ))
}

/// The state after a backspace: the cursor moves one cell back, or to the last
/// cell of the previous line from the start of a line below the first, and that
/// cell is blanked; on the first line at its start nothing changes.
pub open spec fn backspace_state(s: WriterState) -> WriterState {
    if s.x > BORDER_PADDING {
        erase_cell_state(WriterState { x: (s.x - char_width()) as usize, ..s })
    } else if s.y >= char_height() + LINE_SPACING + BORDER_PADDING {
        erase_cell_state(
            WriterState {
                x: (s.info.width - (char_width() + LETTER_SPACING)) as usize,
                y: (s.y - line_height()) as usize,
                ..s
            },
        )
    } else {
        s
    }
}

/// Whether a backspace in state `s` completes.
pub open spec fn backspace_ok(s: WriterState) -> bool {
    if s.x > BORDER_PADDING {
        s.x >= char_width() && cell_ok(s, s.x - char_width(), s.y as int)
    } else if s.y >= char_height() + LINE_SPACING + BORDER_PADDING {
        &&& s.info.width >= char_width() + LETTER_SPACING
        &&& cell_ok(
            s,
            s.info.width - (char_width() + LETTER_SPACING),
            s.y - line_height(),
        )
    } else {
        true
    }
}

/// The state after moving the cursor one line up, unless it is at the top border.
pub open spec fn arrow_up_state(s: WriterState) -> WriterState {
    if s.y > BORDER_PADDING {
        WriterState { y: (s.y - line_height()) as usize, ..s }
    } else {
        s
    }
}

/// The state after moving the cursor one line down, where that line's top is
/// still above the bottom edge.
pub open spec fn arrow_down_state(s: WriterState) -> WriterState {
    if s.y + line_height() < s.info.height {
        WriterState { y: (s.y + line_height()) as usize, ..s }
    } else {
        s
    }
}

/// The state after moving the cursor one cell left, unless it is at the left
/// border.
pub open spec fn arrow_left_state(s: WriterState) -> WriterState {
    if s.x > BORDER_PADDING {
        WriterState { x: (s.x - char_width()) as usize, ..s }
    } else {
        s
    }
}

/// The state after moving the cursor one cell right, where the new position is
/// still left of the right edge.
pub open spec fn arrow_right_state(s: WriterState) -> WriterState {
    if s.x + char_width() < s.info.width {
        WriterState { x: (s.x + char_width()) as usize, ..s }
    } else {
        s
    }
}

/// The state after a tab: the cursor moves `TAB_WIDTH` cells right where the
/// line has room for them, and to the start of the next line where it has not.
pub open spec fn tab_state(s: WriterState) -> WriterState {
    if s.info.width - s.x >= char_width() * TAB_WIDTH {
        WriterState { x: (s.x + char_width() * TAB_WIDTH) as usize, ..s }
    } else {
        newline_state(s)
    }
}

/// Whether a tab in state `s` completes.
pub open spec fn tab_ok(s: WriterState) -> bool {
    &&& s.x <= s.info.width
    &&& s.info.width - s.x < char_width() * TAB_WIDTH ==> s.y + line_height() <= usize::MAX
}

/// Writing a sequence completes only where writing each of its prefixes does.
pub proof fn lemma_write_chars_ok_prefix(s: WriterState, cs: Seq<char>, k: int)
    requires
        write_chars_ok(s, cs),
        0 <= k <= cs.len(),
    ensures
        write_chars_ok(s, cs.take(k)),
    decreases cs.len(),
{
    if k < cs.len() {
        assert(cs.take(k) =~= cs.drop_last().take(k));
        lemma_write_chars_ok_prefix(s, cs.drop_last(), k);
    } else {
        assert(cs.take(k) =~= cs);
    }
}

impl FrameBufferWriter {
    /// A writer on `framebuffer` with the given layout: the buffer cleared to zero,
    /// the cursor at the home position and the color white.
    pub fn new(framebuffer: Vec<u8>, info: FrameInfo) -> (w: Self)
        ensures
            w@ == cleared_state(
                WriterState {
                    fb: framebuffer@,
                    info,
                    x: 0,
                    y: 0,
                    color: seq![255u8, 255u8, 255u8, 255u8],
                },
            ),
    {
        let mut logger = FrameBufferWriter {
            framebuffer,
            info,
            x_pos: 0,
            y_pos: 0,
            color: [255, 255, 255, 255],
        };
        logger.clear();
        assert(logger.color@ =~= seq![255u8, 255u8, 255u8, 255u8]);
        logger
    }

    /// Moves the cursor `width` pixels right and `height` pixels down.
    pub fn set_pos(&mut self, height: usize, width: usize)
        requires
            old(self)@.x + width <= usize::MAX,
            old(self)@.y + height <= usize::MAX,
        ensures
            final(self)@ == (WriterState {
                x: (old(self)@.x + width) as usize,
                y: (old(self)@.y + height) as usize,
                ..old(self)@
            }),
    {
        self.x_pos += width;
        self.y_pos += height;
    }

    /// Sets the current color.
    pub fn set_color(&mut self, color: [u8; 4])
        ensures
            final(self)@ == (WriterState { color: color@, ..old(self)@ }),
    {
        self.color = color;
    }

    fn newline(&mut self)
        requires
            old(self)@.y + line_height() <= usize::MAX,
        ensures
            final(self)@ == newline_state(old(self)@),
    {
        self.y_pos += CHAR_RASTER_HEIGHT.val() + LINE_SPACING;
        self.carriage_return()
    }

    fn carriage_return(&mut self)
        ensures
            final(self)@ == carriage_return_state(old(self)@),
    {
        self.x_pos = BORDER_PADDING;
    }

    /// Width of the framebuffer in pixels.
    pub fn width(&self) -> (w: usize)
        ensures
            w == self@.info.width,
    {
        self.info.width
    }

    /// Height of the framebuffer in pixels.
    pub fn height(&self) -> (h: usize)
        ensures
            h == self@.info.height,
    {
        self.info.height
    }

    /// The cursor position, `(x, y)` in pixels.
    pub fn cursor(&self) -> (p: (usize, usize))
        ensures
            p == (self@.x, self@.y),
    {
        (self.x_pos, self.y_pos)
    }

    /// The current color.
    pub fn color(&self) -> (c: [u8; 4])
        ensures
            c@ == self@.color,
    {
        self.color
    }

    /// The framebuffer layout.
    pub fn info(&self) -> (i: FrameInfo)
        ensures
            i == self@.info,
    {
        self.info
    }

    /// The framebuffer bytes.
    pub fn buffer(&self) -> (b: &[u8])
        ensures
            b@ == self@.fb,
    {
        self.framebuffer.as_slice()
    }

    /// Zeroes the framebuffer and moves the cursor to the home position.
    pub fn clear(&mut self)
        ensures
            final(self)@ == cleared_state(old(self)@),
    {
        self.x_pos = BORDER_PADDING;
        self.y_pos = BORDER_PADDING;
        let n = self.framebuffer.len();
        let mut i: usize = 0;
        while i < n
            invariant
                n == self.framebuffer@.len(),
                n == old(self)@.fb.len(),
                i <= n,
                self.info == old(self)@.info,
                self.color@ == old(self)@.color,
                self.x_pos == BORDER_PADDING,
                self.y_pos == BORDER_PADDING,
                forall|j: int| 0 <= j < i ==> self.framebuffer@[j] == 0u8,
            decreases n - i,
        {
            self.framebuffer[i] = 0;
            i += 1;
        }
        assert(self@.fb =~= cleared_state(old(self)@).fb);
    }

    fn write_pixel(&mut self, x: usize, y: usize, intensity: u8)
        requires
            pixel_ok(old(self)@.info, old(self)@.fb.len() as int, x as int, y as int),
        ensures
            final(self)@ == write_pixel_state(old(self)@, x as int, y as int, intensity),
    {
        let pixel_offset = y * self.info.stride + x;
        let color = pixel_color(self.info.pixel_format, intensity);
        let bytes_per_pixel = self.info.bytes_per_pixel;
        let len = self.framebuffer.len();
        assert(pixel_offset * bytes_per_pixel == crate::frame::pixel_offset(self.info, x as int, y as int));
        let byte_offset = pixel_offset * bytes_per_pixel;
        let ghost target = paint_pixel(old(self)@.fb, old(self)@.info, x as int, y as int, intensity);
        let mut i: usize = 0;
        while i < bytes_per_pixel
            invariant
                bytes_per_pixel == self.info.bytes_per_pixel,
                bytes_per_pixel <= 4,
                byte_offset == (y * self.info.stride + x) * bytes_per_pixel,
                byte_offset + bytes_per_pixel <= self.framebuffer@.len(),
                len == self.framebuffer@.len(),
                color@ == crate::frame::pixel_bytes(self.info.pixel_format, intensity),
                self.info == old(self)@.info,
                self.color == old(self).color,
                self.x_pos == old(self).x_pos,
                self.y_pos == old(self).y_pos,
                target == paint_pixel(old(self)@.fb, old(self)@.info, x as int, y as int, intensity),
                self.framebuffer@.len() == old(self)@.fb.len(),
                i <= bytes_per_pixel,
                forall|b: int|
                    0 <= b < self.framebuffer@.len() ==> #[trigger] self.framebuffer@[b] == if byte_offset
                        <= b < byte_offset + i {
                        target[b]
                    } else {
                        old(self)@.fb[b]
                    },
            decreases bytes_per_pixel - i,
        {
            self.framebuffer[byte_offset + i] = color[i];
            i += 1;
        }
        assert(self@.fb =~= target);
    }

    fn write_rendered_char(&mut self, rendered_char: Glyph)
        requires
            forall|i: int|
                0 <= i < rendered_char.rows().len() ==> #[trigger] rendered_char.rows()[i].len()
                    == rendered_char.width(),
            block_ok(
                old(self)@.info,
                old(self)@.fb.len() as int,
                old(self)@.x as int,
                old(self)@.y as int,
                rendered_char.width() as int,
                rendered_char.rows().len() as int,
            ),
            old(self)@.x + rendered_char.width() + LETTER_SPACING <= usize::MAX,
        ensures
            final(self)@ == (WriterState {
                fb: paint_block(
                    old(self)@.fb,
                    old(self)@.info,
                    old(self)@.x as int,
                    old(self)@.y as int,
                    rendered_char.rows(),
                ),
                x: (old(self)@.x + rendered_char.width() + LETTER_SPACING) as usize,
                ..old(self)@
            }),
    {
        let ghost s0 = self@;
        let ghost rows = rendered_char.rows();
        let n = rendered_char.row_count();
        let w = rendered_char.width();
        let mut y: usize = 0;
        while y < n
            invariant
                n == rows.len(),
                rows == rendered_char.rows(),
                w == rendered_char.width(),
                forall|i: int| 0 <= i < rows.len() ==> #[trigger] rows[i].len() == w,
                block_ok(s0.info, s0.fb.len() as int, s0.x as int, s0.y as int, w as int, n as int),
                y <= n,
                self@ == (WriterState {
                    fb: paint_block(s0.fb, s0.info, s0.x as int, s0.y as int, rows.take(y as int)),
                    ..s0
                }),
                self@.fb.len() == s0.fb.len(),
            decreases n - y,
        {
            let ghost before = self@.fb;
            let mut x: usize = 0;
            while x < w
                invariant
                    n == rows.len(),
                    rows == rendered_char.rows(),
                    w == rendered_char.width(),
                    y < n,
                    rows[y as int].len() == w,
                    block_ok(s0.info, s0.fb.len() as int, s0.x as int, s0.y as int, w as int, n as int),
                    x <= w,
                    before == paint_block(s0.fb, s0.info, s0.x as int, s0.y as int, rows.take(y as int)),
                    self@ == (WriterState {
                        fb: paint_row(before, s0.info, s0.x as int, s0.y + y, rows[y as int].take(x as int)),
                        ..s0
                    }),
                    self@.fb.len() == s0.fb.len(),
                decreases w - x,
            {
                assert(block_pixel_ok(s0.info, s0.fb.len() as int, s0.x as int, s0.y as int, y as int, x as int));
                let intensity = rendered_char.pixel(y, x);
                self.write_pixel(self.x_pos + x, self.y_pos + y, intensity);
                assert(rows[y as int].take(x + 1).drop_last() =~= rows[y as int].take(x as int));
                x += 1;
            }
            assert(rows[y as int].take(w as int) =~= rows[y as int]);
            assert(rows.take(y + 1).drop_last() =~= rows.take(y as int));
            y += 1;
        }
        assert(rows.take(n as int) =~= rows);
        self.x_pos += rendered_char.width() + LETTER_SPACING;
    }

    /// Writes `c` at the cursor; see `write_char_state`.
    pub fn write_char(&mut self, c: char)
        requires
            write_char_ok(old(self)@, c),
        ensures
            final(self)@ == write_char_state(old(self)@, c),
            c != '\n' && c != '\r' ==> is_cell_shaped(glyph_rows(c)),
    {
        match c {
            '\n' => self.newline(),
            '\r' => self.carriage_return(),
            c => {
                let new_xpos = self.x_pos + char_raster_width();
                if new_xpos >= self.width() {
                    self.newline();
                }
                let new_ypos = self.y_pos + CHAR_RASTER_HEIGHT.val() + BORDER_PADDING;
                if new_ypos >= self.height() {
                    self.clear();
                }
                let glyph = get_char_raster(c);
                self.write_rendered_char(glyph);
            },
        }
    }

    /// Erases the character cell before the cursor; see `backspace_state`.
    pub fn backspace(&mut self)
        requires
            backspace_ok(old(self)@),
        ensures
            final(self)@ == backspace_state(old(self)@),
    {
        let cw = char_raster_width();
        if self.x_pos > BORDER_PADDING {
            self.x_pos -= cw;
        } else {
            if self.y_pos >= CHAR_RASTER_HEIGHT.val() + LINE_SPACING + BORDER_PADDING {
                self.x_pos = self.width() - (cw + LETTER_SPACING);
                self.y_pos -= CHAR_RASTER_HEIGHT.val() + LINE_SPACING;
            } else {
                return ;
            }
        }
        let ghost s0 = self@;
        let ghost rows = blank_block(cw as int, char_height() as int);
        let h = CHAR_RASTER_HEIGHT.val();
        let mut u: usize = 0;
        while u < h
            invariant
                h == char_height(),
                cw == char_width(),
                rows == blank_block(cw as int, h as int),
                cell_ok(s0, s0.x as int, s0.y as int),
                u <= h,
                self@ == (WriterState {
                    fb: paint_block(s0.fb, s0.info, s0.x as int, s0.y as int, rows.take(u as int)),
                    ..s0
                }),
                self@.fb.len() == s0.fb.len(),
            decreases h - u,
        {
            let ghost before = self@.fb;
            let mut w: usize = 0;
            while w < cw
                invariant
                    h == char_height(),
                    cw == char_width(),
                    rows == blank_block(cw as int, h as int),
                    cell_ok(s0, s0.x as int, s0.y as int),
                    u < h,
                    w <= cw,
                    before == paint_block(s0.fb, s0.info, s0.x as int, s0.y as int, rows.take(u as int)),
                    self@ == (WriterState {
                        fb: paint_row(before, s0.info, s0.x as int, s0.y + u, rows[u as int].take(w as int)),
                        ..s0
                    }),
                    self@.fb.len() == s0.fb.len(),
                decreases cw - w,
            {
                assert(block_pixel_ok(s0.info, s0.fb.len() as int, s0.x as int, s0.y as int, u as int, w as int));
                self.write_pixel(self.x_pos + w, self.y_pos + u, 0);
                assert(rows[u as int].take(w + 1).drop_last() =~= rows[u as int].take(w as int));
                assert(rows[u as int][w as int] == 0u8);
                w += 1;
            }
            assert(rows[u as int].take(cw as int) =~= rows[u as int]);
            assert(rows.take(u + 1).drop_last() =~= rows.take(u as int));
            u += 1;
        }
        assert(rows.take(h as int) =~= rows);
    }

    /// Moves the cursor one line up; see `arrow_up_state`.
    pub fn arrow_up(&mut self)
        requires
            old(self)@.y > BORDER_PADDING ==> old(self)@.y >= line_height(),
        ensures
            final(self)@ == arrow_up_state(old(self)@),
    {
        if self.y_pos > BORDER_PADDING {
            self.y_pos -= CHAR_RASTER_HEIGHT.val() + LINE_SPACING;
        }
    }

    /// Moves the cursor one line down; see `arrow_down_state`.
    pub fn arrow_down(&mut self)
        requires
            old(self)@.y + line_height() <= usize::MAX,
        ensures
            final(self)@ == arrow_down_state(old(self)@),
    {
        if self.y_pos + CHAR_RASTER_HEIGHT.val() + LINE_SPACING < self.height() {
            self.y_pos += CHAR_RASTER_HEIGHT.val() + LINE_SPACING;
        }
    }

    /// Moves the cursor one cell left; see `arrow_left_state`.
    pub fn arrow_left(&mut self)
        requires
            old(self)@.x > BORDER_PADDING ==> old(self)@.x >= char_width(),
        ensures
            final(self)@ == arrow_left_state(old(self)@),
    {
        if self.x_pos > BORDER_PADDING {
            self.x_pos -= char_raster_width();
        }
    }

    /// Moves the cursor one cell right; see `arrow_right_state`.
    pub fn arrow_right(&mut self)
        requires
            old(self)@.x + char_width() <= usize::MAX,
        ensures
            final(self)@ == arrow_right_state(old(self)@),
    {
        if self.x_pos + char_raster_width() < self.width() {
            self.x_pos += char_raster_width();
        }
    }

    /// Advances the cursor by a tab; see `tab_state`.
    pub fn tab(&mut self)
        requires
            tab_ok(old(self)@),
        ensures
            final(self)@ == tab_state(old(self)@),
    {
        let remaining_space = self.width() - self.x_pos;
        let tab_width = char_raster_width() * TAB_WIDTH;
        if remaining_space >= tab_width {
            self.x_pos += tab_width;
        } else {
            self.newline();
        }
    }

    /// Writes the characters of `s` one after another.
    pub fn write_str(&mut self, s: &str)
        requires
            write_chars_ok(old(self)@, s@),
        ensures
            final(self)@ == write_chars_state(old(self)@, s@),
    {
        let n = s.unicode_len();
        let mut i: usize = 0;
        while i < n
            invariant
                n == s@.len(),
                i <= n,
                write_chars_ok(old(self)@, s@),
                self@ == write_chars_state(old(self)@, s@.take(i as int)),
            decreases n - i,
        {
            let c = s.get_char(i);
            proof {
                assert(s@.take(i + 1).drop_last() =~= s@.take(i as int));
                lemma_write_chars_ok_prefix(old(self)@, s@, i + 1);
            }
            self.write_char(c);
            i += 1;
        }
        assert(s@.take(n as int) =~= s@);
    }

    /// Whether the glyph cell at (`x`, `y`) can be drawn.
    pub fn cell_fits(&self, x: usize, y: usize) -> (r: bool)
        ensures
            r == cell_ok(self@, x as int, y as int),
    {
        block_fits(
            self.info,
            self.framebuffer.len(),
            x,
            y,
            char_raster_width(),
            CHAR_RASTER_HEIGHT.val(),
        )
    }

    /// Whether `write_char(c)` completes from the current state.
    pub fn write_char_fits(&self, c: char) -> (r: bool)
        ensures
            r == write_char_ok(self@, c),
    {
        let line = CHAR_RASTER_HEIGHT.val() + LINE_SPACING;
        if c == '\n' {
            return self.y_pos.checked_add(line).is_some();
        }
        if c == '\r' {
            return true;
        }
        let cw = char_raster_width();
        let new_xpos = match self.x_pos.checked_add(cw) {
            Some(v) => v,
            None => return false,
        };
        let (x1, y1) = if new_xpos >= self.info.width {
            match self.y_pos.checked_add(line) {
                Some(v) => (BORDER_PADDING, v),
                None => return false,
            }
        } else {
            (self.x_pos, self.y_pos)
        };
        let new_ypos = match y1.checked_add(CHAR_RASTER_HEIGHT.val() + BORDER_PADDING) {
            Some(v) => v,
            None => return false,
        };
        let (x2, y2) = if new_ypos >= self.info.height {
            (BORDER_PADDING, BORDER_PADDING)
        } else {
            (x1, y1)
        };
        self.cell_fits(x2, y2) && x2.checked_add(cw + LETTER_SPACING).is_some()
    }

    /// Whether `backspace()` completes from the current state.
    pub fn backspace_fits(&self) -> (r: bool)
        ensures
            r == backspace_ok(self@),
    {
        let cw = char_raster_width();
        if self.x_pos > BORDER_PADDING {
            self.x_pos >= cw && self.cell_fits(self.x_pos - cw, self.y_pos)
        } else if self.y_pos >= CHAR_RASTER_HEIGHT.val() + LINE_SPACING + BORDER_PADDING {
            self.info.width >= cw + LETTER_SPACING && self.cell_fits(
                self.info.width - (cw + LETTER_SPACING),
                self.y_pos - (CHAR_RASTER_HEIGHT.val() + LINE_SPACING),
            )
        } else {
            true
        }
    }

    /// Whether `tab()` completes from the current state.
    pub fn tab_fits(&self) -> (r: bool)
        ensures
            r == tab_ok(self@),
    {
        if self.x_pos > self.info.width {
            return false;
        }
        if self.info.width - self.x_pos >= char_raster_width() * TAB_WIDTH {
            true
        } else {
            self.y_pos.checked_add(CHAR_RASTER_HEIGHT.val() + LINE_SPACING).is_some()
        }
    }
}

} // verus!
