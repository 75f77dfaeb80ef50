//! Glyph rasters of the Noto Sans Mono bitmap font, as the writer draws them.

use vstd::prelude::*;

verus! {

/// Font weight of the glyphs the writer draws.
#[derive(Clone, Copy, Debug, PartialEq, Eq)]
pub enum FontWeight {
    Regular,
}

/// Height in pixels of the pre-rasterized glyph box.
#[derive(Clone, Copy, Debug, PartialEq, Eq)]
pub enum RasterHeight {
    Size16,
}

impl RasterHeight {
    pub open spec fn spec_val(self) -> usize {
        match self {
            RasterHeight::Size16 => 16,
        }
    }

    /// The height in pixels that the variant stands for.
    #[verifier::when_used_as_spec(spec_val)]
    pub fn val(self) -> (v: usize)
        ensures
            v == self.spec_val(),
    {
        match self {
            RasterHeight::Size16 => 16,
        }
    }
}

/// Font weight of every glyph the writer draws.
pub const FONT_WEIGHT: FontWeight = FontWeight::Regular;

/// Raster height of every glyph the writer draws.
pub const CHAR_RASTER_HEIGHT: RasterHeight = RasterHeight::Size16;

/// Drawn in place of a character that the font does not hold.
pub const BACKUP_CHAR: char = '\u{FFFD}';

/// The raster of `c` in the font, row by row, each byte the intensity of one pixel;
/// `None` where the font has no glyph for `c`.
pub uninterp spec fn font_raster(c: char, weight: FontWeight, size: RasterHeight) -> Option<Seq<Seq<u8>>>;

/// The width in pixels shared by every glyph of one weight and height.
pub open spec fn font_raster_width(weight: FontWeight, size: RasterHeight) -> usize {
    match (weight, size) {
        (FontWeight::Regular, RasterHeight::Size16) => 9,
    }
}

/// A rasterized character: `height` rows of `width` intensity bytes.
pub struct Glyph {
    raster: &'static [&'static [u8]],
    height: usize,
    width: usize,
}

impl Glyph {
    /// The rows of the raster, top to bottom.
    pub closed spec fn rows(&self) -> Seq<Seq<u8>> {
        Seq::new(self.raster@.len(), |i: int| self.raster@[i]@)
    }

    pub closed spec fn spec_width(&self) -> usize {
        self.width
    }

    pub closed spec fn spec_height(&self) -> usize {
        self.height
    }

    /// Width of the glyph box in pixels.
    #[verifier::when_used_as_spec(spec_width)]
    pub fn width(&self) -> (w: usize)
        ensures
            w == self.spec_width(),
    {
        self.width
    }

    /// Height of the glyph box in pixels.
    #[verifier::when_used_as_spec(spec_height)]
    pub fn height(&self) -> (h: usize)
        ensures
            h == self.spec_height(),
    {
        self.height
    }

    /// Number of raster rows.
    pub fn row_count(&self) -> (n: usize)
        ensures
            n == self.rows().len(),
    {
        self.raster.len()
    }

    /// Intensity of the pixel in `row`, `col`.
    pub fn pixel(&self, row: usize, col: usize) -> (b: u8)
        requires
            row < self.rows().len(),
            col < self.rows()[row as int].len(),
        ensures
            b == self.rows()[row as int][col as int],
    {
        self.raster[row][col]
    }
}

/// Calls `noto_sans_mono_bitmap::get_raster` with the weight and height given.
/// Trusted: the result is `font_raster(c, weight, size)`; a present raster has
/// `size.val()` rows of `font_raster_width(weight, size)` bytes each (the crate
/// documents the raster as `height` * `width` bytes, with one width for all
/// characters of a weight and height); the replacement character U+FFFD is always
/// present (its arm is compiled in with the crate's `unicode-specials` feature).
#[verifier::external_body]
fn get_raster(c: char, weight: FontWeight, size: RasterHeight) -> (r: Option<Glyph>)
    ensures
        match r {
            Some(g) => {
                &&& font_raster(c, weight, size) == Some(g.rows())
                &&& g.width() == font_raster_width(weight, size)
                &&& g.height() == size.val()
                &&& g.rows().len() == size.val()
                &&& forall|i: int| 0 <= i < g.rows().len() ==> #[trigger] g.rows()[i].len() == g.width()
            },
            None => font_raster(c, weight, size) is None,
        },
        c == '\u{FFFD}' ==> r is Some,
{
    let weight = match weight {
        FontWeight::Regular => noto_sans_mono_bitmap::FontWeight::Regular,
    };
    let size = match size {
        RasterHeight::Size16 => noto_sans_mono_bitmap::RasterHeight::Size16,
    };
    noto_sans_mono_bitmap::get_raster(c, weight, size).map(
        |g| Glyph { raster: g.raster(), height: g.height(), width: g.width() },
    )
}

/// Calls `noto_sans_mono_bitmap::get_raster_width`. Trusted: the result is
/// `font_raster_width(weight, size)`, the `RASTER_WIDTH` constant of the crate's
/// module for that weight and height (9 for regular, 16 pixels).
#[verifier::external_body]
fn get_raster_width(weight: FontWeight, size: RasterHeight) -> (w: usize)
    ensures
        w == font_raster_width(weight, size),
{
    let weight = match weight {
        FontWeight::Regular => noto_sans_mono_bitmap::FontWeight::Regular,
    };
    let size = match size {
        RasterHeight::Size16 => noto_sans_mono_bitmap::RasterHeight::Size16,
    };
    noto_sans_mono_bitmap::get_raster_width(weight, size)
}

/// Width in pixels of every glyph the writer draws.
pub open spec fn char_width() -> usize {
    font_raster_width(FONT_WEIGHT, CHAR_RASTER_HEIGHT)
}

/// Height in pixels of every glyph the writer draws.
pub open spec fn char_height() -> usize {
    CHAR_RASTER_HEIGHT.val()
}

/// The raster drawn for `c`: its own glyph, or the backup character's where the
/// font has none.
pub open spec fn glyph_rows(c: char) -> Seq<Seq<u8>> {
    match font_raster(c, FONT_WEIGHT, CHAR_RASTER_HEIGHT) {
        Some(rows) => rows,
        None => font_raster(BACKUP_CHAR, FONT_WEIGHT, CHAR_RASTER_HEIGHT)->0,
    }
}

/// A raster of `char_height()` rows of `char_width()` bytes each: the shape of every
/// glyph the font holds at the writer's weight and height.
pub open spec fn is_cell_shaped(rows: Seq<Seq<u8>>) -> bool {
    &&& rows.len() == char_height()
    &&& forall|i: int| 0 <= i < rows.len() ==> #[trigger] rows[i].len() == char_width()
}

/// The width in pixels of every glyph the writer draws.
pub fn char_raster_width() -> (w: usize)
    ensures
        w == char_width(),
{
    get_raster_width(FONT_WEIGHT, CHAR_RASTER_HEIGHT)
}

/// The glyph for `c`, or the backup character's glyph where the font has none
/// for `c`.
pub fn get_char_raster(c: char) -> (g: Glyph)
    ensures
        g.rows() == glyph_rows(c),
        is_cell_shaped(g.rows()),
        g.width() == char_width(),
        g.height() == char_height(),
{
    match get_raster(c, FONT_WEIGHT, CHAR_RASTER_HEIGHT) {
        Some(g) => g,
        None => get_raster(BACKUP_CHAR, FONT_WEIGHT, CHAR_RASTER_HEIGHT).unwrap(),
    }
}

} // verus!
