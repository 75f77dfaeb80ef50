//! Framebuffer geometry and the byte-level effect of drawing pixels.

use vstd::prelude::*;

verus! {

/// Color format of the pixels in a framebuffer.
#[derive(Clone, Copy, Debug, PartialEq, Eq)]
pub enum PixelFormat {
    /// One byte red, then one byte green, then one byte blue.
    Rgb,
    /// One byte blue, then one byte green, then one byte red.
    Bgr,
    /// A single byte holding the grayscale value.
    U8,
    /// A format the writer cannot draw in.
    Unknown { red_position: u8, green_position: u8, blue_position: u8 },
}

/// Layout and pixel format of a framebuffer.
#[derive(Clone, Copy, Debug, PartialEq, Eq)]
pub struct FrameInfo {
    /// The total size in bytes.
    pub byte_len: usize,
    /// The width in pixels.
    pub width: usize,
    /// The height in pixels.
    pub height: usize,
    /// The color format of each pixel.
    pub pixel_format: PixelFormat,
    /// The number of bytes per pixel.
    pub bytes_per_pixel: usize,
    /// Number of pixels between the start of a line and the start of the next.
    pub stride: usize,
}

/// The bytes written for a pixel of the given intensity; the first
/// `bytes_per_pixel` of them are stored.
pub open spec fn pixel_bytes(format: PixelFormat, intensity: u8) -> Seq<u8> {
    match format {
        PixelFormat::Rgb => seq![intensity, intensity, intensity / 2, 0u8],
        PixelFormat::Bgr => seq![intensity / 2, intensity, intensity, 0u8],
        PixelFormat::U8 => seq![if intensity > 200 { 0xfu8 } else { 0u8 }, 0u8, 0u8, 0u8],
        PixelFormat::Unknown { .. } => seq![0u8, 0u8, 0u8, 0u8],
    }
}

/// Index of the first byte of pixel (`x`, `y`).
pub open spec fn pixel_offset(info: FrameInfo, x: int, y: int) -> int {
    (y * info.stride + x) * info.bytes_per_pixel
}

/// Whether byte `b` belongs to pixel (`x`, `y`).
pub open spec fn pixel_covers(info: FrameInfo, x: int, y: int, b: int) -> bool {
    pixel_offset(info, x, y) <= b < pixel_offset(info, x, y) + info.bytes_per_pixel
}

/// Whether a pixel can be drawn at (`x`, `y`) into a buffer of `len` bytes: its
/// index is computed without overflow, its first byte and all its bytes are in
/// range, its color fits the four color bytes, and the format is one the writer
/// draws in.
pub open spec fn pixel_ok(info: FrameInfo, len: int, x: int, y: int) -> bool {
    &&& 0 <= x
    &&& 0 <= y
    &&& y * info.stride + x <= usize::MAX
    &&& pixel_offset(info, x, y) + info.bytes_per_pixel <= len
    &&& pixel_offset(info, x, y) < len
    &&& info.bytes_per_pixel <= 4
    &&& !(info.pixel_format is Unknown)
}

/// Whether pixel (`v`, `u`) of a block with its top left corner at (`x`, `y`)
/// can be drawn, its coordinates computed without overflow.
pub open spec fn block_pixel_ok(info: FrameInfo, len: int, x: int, y: int, u: int, v: int) -> bool {
    &&& x + v <= usize::MAX
    &&& y + u <= usize::MAX
    &&& pixel_ok(info, len, x + v, y + u)
}

/// Whether every pixel of the `w` x `h` block at (`x`, `y`) can be drawn.
pub open spec fn block_ok(info: FrameInfo, len: int, x: int, y: int, w: int, h: int) -> bool {
    forall|u: int, v: int|
        0 <= u < h && 0 <= v < w ==> #[trigger] block_pixel_ok(info, len, x, y, u, v)
}

/// The buffer after drawing pixel (`x`, `y`) with the given intensity.
pub open spec fn paint_pixel(fb: Seq<u8>, info: FrameInfo, x: int, y: int, intensity: u8) -> Seq<u8> {
    let color = pixel_bytes(info.pixel_format, intensity);
    Seq::new(
        fb.len(),
        |b: int|
            if pixel_covers(info, x, y, b) {
                color[b - pixel_offset(info, x, y)]
            } else {
                fb[b]
            },
    )
}

/// The buffer after drawing `row` left to right from (`x`, `y`).
pub open spec fn paint_row(fb: Seq<u8>, info: FrameInfo, x: int, y: int, row: Seq<u8>) -> Seq<u8>
    decreases row.len(),
{
    if row.len() == 0 {
        fb
    } else {
        paint_pixel(
            paint_row(fb, info, x, y, row.drop_last()),
            info,
            x + row.len() - 1,
            y,
            row.last(),
        )
    }
}

/// The buffer after drawing `rows` top to bottom with their top left corner at
/// (`x`, `y`).
pub open spec fn paint_block(fb: Seq<u8>, info: FrameInfo, x: int, y: int, rows: Seq<Seq<u8>>) -> Seq<u8>
    decreases rows.len(),
{
    if rows.len() == 0 {
        fb
    } else {
        paint_row(
            paint_block(fb, info, x, y, rows.drop_last()),
            info,
            x,
            y + rows.len() - 1,
            rows.last(),
        )
    }
}

/// A `w` x `h` block of zero intensity.
pub open spec fn blank_block(w: int, h: int) -> Seq<Seq<u8>> {
    Seq::new(h as nat, |i: int| Seq::new(w as nat, |j: int| 0u8))
}

/// The four color bytes of a pixel of the given intensity.
pub fn pixel_color(format: PixelFormat, intensity: u8) -> (color: [u8; 4])
    requires
        !(format is Unknown),
    ensures
        color@ == pixel_bytes(format, intensity),
{
    let color = match format {
        PixelFormat::Rgb => [intensity, intensity, intensity / 2, 0],
        PixelFormat::Bgr => [intensity / 2, intensity, intensity, 0],
        PixelFormat::U8 => [if intensity > 200 { 0xf } else { 0 }, 0, 0, 0],
        PixelFormat::Unknown { .. } => [0, 0, 0, 0],
    };
    assert(color@ =~= pixel_bytes(format, intensity));
    color
}

/// Whether a pixel can be drawn at (`x`, `y`) into a buffer of `len` bytes.
pub fn pixel_fits(info: FrameInfo, len: usize, x: usize, y: usize) -> (r: bool)
    ensures
        r == pixel_ok(info, len as int, x as int, y as int),
{
    if info.bytes_per_pixel > 4 {
        return false;
    }
    if let PixelFormat::Unknown { .. } = info.pixel_format {
        return false;
    }
    let row = match y.checked_mul(info.stride) {
        Some(v) => v,
        None => return false,
    };
    let index = match row.checked_add(x) {
        Some(v) => v,
        None => return false,
    };
    let offset = match index.checked_mul(info.bytes_per_pixel) {
        Some(v) => v,
        None => return false,
    };
    assert(offset == pixel_offset(info, x as int, y as int));
    offset < len && info.bytes_per_pixel <= len - offset
}

/// Whether every pixel of the `w` x `h` block at (`x`, `y`) can be drawn into a
/// buffer of `len` bytes.
pub fn block_fits(info: FrameInfo, len: usize, x: usize, y: usize, w: usize, h: usize) -> (r: bool)
    ensures
        r == block_ok(info, len as int, x as int, y as int, w as int, h as int),
{
    let mut u: usize = 0;
    while u < h
        invariant
            u <= h,
            forall|i: int, j: int|
                0 <= i < u && 0 <= j < w ==> #[trigger] block_pixel_ok(
                    info,
                    len as int,
                    x as int,
                    y as int,
                    i,
                    j,
                ),
        decreases h - u,
    {
        let mut v: usize = 0;
        while v < w
            invariant
                u < h,
                v <= w,
                forall|i: int, j: int|
                    0 <= i < u && 0 <= j < w ==> #[trigger] block_pixel_ok(
                        info,
                        len as int,
                        x as int,
                        y as int,
                        i,
                        j,
                    ),
                forall|j: int|
                    0 <= j < v ==> #[trigger] block_pixel_ok(info, len as int, x as int, y as int, u as int, j),
            decreases w - v,
        {
            let px = x.checked_add(v);
            let py = y.checked_add(u);
            if px.is_none() || py.is_none() {
                assert(!block_pixel_ok(info, len as int, x as int, y as int, u as int, v as int));
                return false;
            }
            if !pixel_fits(info, len, px.unwrap(), py.unwrap()) {
                assert(!block_pixel_ok(info, len as int, x as int, y as int, u as int, v as int));
                return false;
            }
            v += 1;
        }
        u += 1;
    }
    true
}

/// Whether byte `b` belongs to pixel (`v`, `u`) of a block with its top left
/// corner at (`x`, `y`).
pub open spec fn block_pixel_covers(info: FrameInfo, x: int, y: int, u: int, v: int, b: int) -> bool {
    pixel_covers(info, x + v, y + u, b)
}

/// Whether byte `b` belongs to one of the first `n` pixels of row `u` of a block
/// with its top left corner at (`x`, `y`).
pub open spec fn row_covers(info: FrameInfo, x: int, y: int, u: int, n: int, b: int) -> bool {
    exists|v: int| 0 <= v < n && #[trigger] block_pixel_covers(info, x, y, u, v, b)
}

/// Whether byte `b` belongs to the `w` x `h` block at (`x`, `y`).
pub open spec fn block_covers(info: FrameInfo, x: int, y: int, w: int, h: int, b: int) -> bool {
    exists|u: int| 0 <= u < h && #[trigger] row_covers(info, x, y, u, w, b)
}

/// Drawing a row keeps the buffer's length.
pub proof fn lemma_paint_row_len(fb: Seq<u8>, info: FrameInfo, x: int, y: int, row: Seq<u8>)
    ensures
        paint_row(fb, info, x, y, row).len() == fb.len(),
    decreases row.len(),
{
    if row.len() > 0 {
        lemma_paint_row_len(fb, info, x, y, row.drop_last());
    }
}

/// Drawing a block keeps the buffer's length.
pub proof fn lemma_paint_block_len(fb: Seq<u8>, info: FrameInfo, x: int, y: int, rows: Seq<Seq<u8>>)
    ensures
        paint_block(fb, info, x, y, rows).len() == fb.len(),
    decreases rows.len(),
{
    if rows.len() > 0 {
        lemma_paint_block_len(fb, info, x, y, rows.drop_last());
        lemma_paint_row_len(
            paint_block(fb, info, x, y, rows.drop_last()),
            info,
            x,
            y + rows.len() - 1,
            rows.last(),
        );
    }
}

/// Drawing row `u` of a block leaves every byte outside its pixels as it was.
pub proof fn lemma_paint_row_outside(
    fb: Seq<u8>,
    info: FrameInfo,
    x: int,
    y: int,
    u: int,
    row: Seq<u8>,
    b: int,
)
    requires
        0 <= b < fb.len(),
        !row_covers(info, x, y, u, row.len() as int, b),
    ensures
        paint_row(fb, info, x, y + u, row)[b] == fb[b],
    decreases row.len(),
{
    if row.len() > 0 {
        let n = row.len() - 1;
        assert(!row_covers(info, x, y, u, n, b)) by {
            if row_covers(info, x, y, u, n, b) {
                let v = choose|v: int| 0 <= v < n && #[trigger] block_pixel_covers(info, x, y, u, v, b);
                assert(block_pixel_covers(info, x, y, u, v, b));
            }
        }
        lemma_paint_row_outside(fb, info, x, y, u, row.drop_last(), b);
        lemma_paint_row_len(fb, info, x, y + u, row.drop_last());
        assert(!block_pixel_covers(info, x, y, u, n, b));
    }
}

/// Drawing a block of at most `h` rows of at most `w` pixels leaves every byte
/// outside the `w` x `h` block as it was.
pub proof fn lemma_paint_block_outside(
    fb: Seq<u8>,
    info: FrameInfo,
    x: int,
    y: int,
    rows: Seq<Seq<u8>>,
    w: int,
    h: int,
    b: int,
)
    requires
        0 <= b < fb.len(),
        rows.len() <= h,
        forall|i: int| 0 <= i < rows.len() ==> #[trigger] rows[i].len() <= w,
        !block_covers(info, x, y, w, h, b),
    ensures
        paint_block(fb, info, x, y, rows)[b] == fb[b],
    decreases rows.len(),
{
    if rows.len() > 0 {
        let u = rows.len() - 1;
        let prev = paint_block(fb, info, x, y, rows.drop_last());
        lemma_paint_block_outside(fb, info, x, y, rows.drop_last(), w, h, b);
        lemma_paint_block_len(fb, info, x, y, rows.drop_last());
        assert(!row_covers(info, x, y, u, rows.last().len() as int, b)) by {
            if row_covers(info, x, y, u, rows.last().len() as int, b) {
                let v = choose|v: int|
                    0 <= v < rows.last().len() && #[trigger] block_pixel_covers(info, x, y, u, v, b);
                assert(block_pixel_covers(info, x, y, u, v, b));
                assert(row_covers(info, x, y, u, w, b));
            }
        }
        lemma_paint_row_outside(prev, info, x, y, u, rows.last(), b);
    }
}

/// A pixel of zero intensity is stored as zero bytes.
pub proof fn lemma_zero_pixel_bytes(format: PixelFormat, i: int)
    requires
        0 <= i < 4,
    ensures
        pixel_bytes(format, 0u8)[i] == 0u8,
{
}

/// Drawing the first `n` pixels of row `u` of a block with zero intensity zeroes
/// exactly their bytes.
pub proof fn lemma_paint_row_blank(fb: Seq<u8>, info: FrameInfo, x: int, y: int, u: int, n: nat, b: int)
    requires
        0 <= b < fb.len(),
        n > 0 ==> info.bytes_per_pixel <= 4,
    ensures
        paint_row(fb, info, x, y + u, Seq::new(n, |j: int| 0u8))[b] == if row_covers(
            info,
            x,
            y,
            u,
            n as int,
            b,
        ) {
            0u8
        } else {
            fb[b]
        },
    decreases n,
{
    let row = Seq::new(n, |j: int| 0u8);
    if n > 0 {
        let m = (n - 1) as nat;
        assert(row.drop_last() =~= Seq::new(m, |j: int| 0u8));
        lemma_paint_row_blank(fb, info, x, y, u, m, b);
        lemma_paint_row_len(fb, info, x, y + u, row.drop_last());
        let prev = paint_row(fb, info, x, y + u, row.drop_last());
        if block_pixel_covers(info, x, y, u, m as int, b) {
            assert(row_covers(info, x, y, u, n as int, b));
            lemma_zero_pixel_bytes(info.pixel_format, b - pixel_offset(info, x + m, y + u));
        } else if row_covers(info, x, y, u, m as int, b) {
            let v = choose|v: int| 0 <= v < m && #[trigger] block_pixel_covers(info, x, y, u, v, b);
            assert(block_pixel_covers(info, x, y, u, v, b));
            assert(row_covers(info, x, y, u, n as int, b));
        } else {
            assert(!row_covers(info, x, y, u, n as int, b)) by {
                if row_covers(info, x, y, u, n as int, b) {
                    let v = choose|v: int| 0 <= v < n && #[trigger] block_pixel_covers(info, x, y, u, v, b);
                    assert(block_pixel_covers(info, x, y, u, v, b));
                    if v < m {
                        assert(row_covers(info, x, y, u, m as int, b));
                    }
                }
            }
        }
    }
}

/// Drawing a blank `w` x `h` block zeroes exactly the bytes of its pixels.
pub proof fn lemma_paint_block_blank(fb: Seq<u8>, info: FrameInfo, x: int, y: int, w: nat, h: nat, b: int)
    requires
        0 <= b < fb.len(),
        w > 0 && h > 0 ==> info.bytes_per_pixel <= 4,
    ensures
        paint_block(fb, info, x, y, blank_block(w as int, h as int))[b] == if block_covers(
            info,
            x,
            y,
            w as int,
            h as int,
            b,
        ) {
            0u8
        } else {
            fb[b]
        },
    decreases h,
{
    let rows = blank_block(w as int, h as int);
    if h > 0 {
        let m = (h - 1) as nat;
        assert(rows.drop_last() =~= blank_block(w as int, m as int));
        lemma_paint_block_blank(fb, info, x, y, w, m, b);
        lemma_paint_block_len(fb, info, x, y, rows.drop_last());
        let prev = paint_block(fb, info, x, y, rows.drop_last());
        assert(rows.last() =~= Seq::new(w, |j: int| 0u8));
        lemma_paint_row_blank(prev, info, x, y, m as int, w, b);
        if row_covers(info, x, y, m as int, w as int, b) {
            assert(block_covers(info, x, y, w as int, h as int, b));
        } else if block_covers(info, x, y, w as int, m as int, b) {
            let u = choose|u: int| 0 <= u < m && #[trigger] row_covers(info, x, y, u, w as int, b);
            assert(row_covers(info, x, y, u, w as int, b));
            assert(block_covers(info, x, y, w as int, h as int, b));
        } else {
            assert(!block_covers(info, x, y, w as int, h as int, b)) by {
                if block_covers(info, x, y, w as int, h as int, b) {
                    let u = choose|u: int| 0 <= u < h && #[trigger] row_covers(info, x, y, u, w as int, b);
                    assert(row_covers(info, x, y, u, w as int, b));
                    if u < m {
                        assert(block_covers(info, x, y, w as int, m as int, b));
                    }
                }
            }
        }
    }
}

/// Blanking a `w` x `h` block after drawing any block of at most that size at
/// the same corner leaves the same bytes as blanking it alone.
pub proof fn lemma_blank_over_block(
    fb: Seq<u8>,
    info: FrameInfo,
    x: int,
    y: int,
    rows: Seq<Seq<u8>>,
    w: nat,
    h: nat,
)
    requires
        rows.len() <= h,
        forall|i: int| 0 <= i < rows.len() ==> #[trigger] rows[i].len() <= w,
        w > 0 && h > 0 ==> info.bytes_per_pixel <= 4,
    ensures
        paint_block(paint_block(fb, info, x, y, rows), info, x, y, blank_block(w as int, h as int))
            == paint_block(fb, info, x, y, blank_block(w as int, h as int)),
{
    let drawn = paint_block(fb, info, x, y, rows);
    let lhs = paint_block(drawn, info, x, y, blank_block(w as int, h as int));
    let rhs = paint_block(fb, info, x, y, blank_block(w as int, h as int));
    lemma_paint_block_len(fb, info, x, y, rows);
    lemma_paint_block_len(drawn, info, x, y, blank_block(w as int, h as int));
    lemma_paint_block_len(fb, info, x, y, blank_block(w as int, h as int));
    assert forall|b: int| 0 <= b < lhs.len() implies lhs[b] == rhs[b] by {
        lemma_paint_block_blank(drawn, info, x, y, w, h, b);
        lemma_paint_block_blank(fb, info, x, y, w, h, b);
        if !block_covers(info, x, y, w as int, h as int, b) {
            lemma_paint_block_outside(fb, info, x, y, rows, w as int, h as int, b);
        }
    }
    assert(lhs =~= rhs);
}

/// Distinct pixels of a line narrower than the stride hold disjoint bytes: a
/// byte belongs to at most one of them.
pub proof fn lemma_pixels_disjoint(info: FrameInfo, x1: int, y1: int, x2: int, y2: int, b: int)
    requires
        0 <= x1 < info.stride,
        0 <= x2 < info.stride,
        0 <= y1,
        0 <= y2,
        info.bytes_per_pixel >= 1,
        pixel_covers(info, x1, y1, b),
        pixel_covers(info, x2, y2, b),
    ensures
        x1 == x2,
        y1 == y2,
{
    let s = info.stride as int;
    let n = info.bytes_per_pixel as int;
    let p1 = y1 * s + x1;
    let p2 = y2 * s + x2;
    assert(p1 == p2) by {
        if p1 < p2 {
            assert((p1 + 1) * n <= p2 * n) by (nonlinear_arith)
                requires
                    p1 + 1 <= p2,
                    n >= 0,
            ;
            assert(p1 * n + n == (p1 + 1) * n) by (nonlinear_arith);
        } else if p2 < p1 {
            assert((p2 + 1) * n <= p1 * n) by (nonlinear_arith)
                requires
                    p2 + 1 <= p1,
                    n >= 0,
            ;
            assert(p2 * n + n == (p2 + 1) * n) by (nonlinear_arith);
        }
    }
    assert(y1 == y2) by {
        if y1 < y2 {
            assert((y1 + 1) * s <= y2 * s) by (nonlinear_arith)
                requires
                    y1 + 1 <= y2,
                    s >= 0,
            ;
            assert(y1 * s + s == (y1 + 1) * s) by (nonlinear_arith);
        } else if y2 < y1 {
            assert((y2 + 1) * s <= y1 * s) by (nonlinear_arith)
                requires
                    y2 + 1 <= y1,
                    s >= 0,
            ;
            assert(y2 * s + s == (y2 + 1) * s) by (nonlinear_arith);
        }
    }
}

/// The bytes of pixel (`v`, `u`) after drawing row `u` of a block that fits within
/// the stride are those of that pixel's intensity.
pub proof fn lemma_paint_row_pixel(
    fb: Seq<u8>,
    info: FrameInfo,
    x: int,
    y: int,
    u: int,
    row: Seq<u8>,
    v: int,
    k: int,
)
    requires
        0 <= x,
        0 <= y + u,
        x + row.len() <= info.stride,
        0 <= v < row.len(),
        1 <= info.bytes_per_pixel <= 4,
        0 <= k < info.bytes_per_pixel,
        pixel_offset(info, x + v, y + u) + info.bytes_per_pixel <= fb.len(),
    ensures
        paint_row(fb, info, x, y + u, row)[pixel_offset(info, x + v, y + u) + k] == pixel_bytes(
            info.pixel_format,
            row[v],
        )[k],
    decreases row.len(),
{
    let n = row.len() - 1;
    let b = pixel_offset(info, x + v, y + u) + k;
    lemma_paint_row_len(fb, info, x, y + u, row.drop_last());
    let prev = paint_row(fb, info, x, y + u, row.drop_last());
    assert(pixel_offset(info, x + v, y + u) >= 0) by (nonlinear_arith)
        requires
            x + v >= 0,
            y + u >= 0,
            info.stride >= 0,
            info.bytes_per_pixel >= 0,
    ;
    if v == n {
        assert(pixel_covers(info, x + row.len() - 1, y + u, b));
    } else {
        lemma_paint_row_pixel(fb, info, x, y, u, row.drop_last(), v, k);
        if pixel_covers(info, x + row.len() - 1, y + u, b) {
            assert(pixel_covers(info, x + v, y + u, b));
            lemma_pixels_disjoint(info, x + row.len() - 1, y + u, x + v, y + u, b);
        }
    }
}

/// The bytes of pixel (`v`, `u`) after drawing a block whose rows fit within the
/// stride from `x` are those of that pixel's intensity: no other pixel of the
/// block shares a byte with it.
pub proof fn lemma_paint_block_pixel(
    fb: Seq<u8>,
    info: FrameInfo,
    x: int,
    y: int,
    rows: Seq<Seq<u8>>,
    w: int,
    u: int,
    v: int,
    k: int,
)
    requires
        0 <= x,
        0 <= y,
        x + w <= info.stride,
        forall|i: int| 0 <= i < rows.len() ==> #[trigger] rows[i].len() <= w,
        0 <= u < rows.len(),
        0 <= v < rows[u].len(),
        1 <= info.bytes_per_pixel <= 4,
        0 <= k < info.bytes_per_pixel,
        pixel_offset(info, x + v, y + u) + info.bytes_per_pixel <= fb.len(),
    ensures
        paint_block(fb, info, x, y, rows)[pixel_offset(info, x + v, y + u) + k] == pixel_bytes(
            info.pixel_format,
            rows[u][v],
        )[k],
    decreases rows.len(),
{
    let last = rows.len() - 1;
    let b = pixel_offset(info, x + v, y + u) + k;
    lemma_paint_block_len(fb, info, x, y, rows.drop_last());
    let prev = paint_block(fb, info, x, y, rows.drop_last());
    assert(pixel_offset(info, x + v, y + u) >= 0) by (nonlinear_arith)
        requires
            x + v >= 0,
            y + u >= 0,
            info.stride >= 0,
            info.bytes_per_pixel >= 0,
    ;
    assert(rows.last().len() <= w);
    if u == last {
        lemma_paint_row_pixel(prev, info, x, y, last, rows.last(), v, k);
    } else {
        assert(rows.drop_last()[u] == rows[u]);
        lemma_paint_block_pixel(fb, info, x, y, rows.drop_last(), w, u, v, k);
        assert(!row_covers(info, x, y, last, rows.last().len() as int, b)) by {
            if row_covers(info, x, y, last, rows.last().len() as int, b) {
                let j = choose|j: int|
                    0 <= j < rows.last().len() && #[trigger] block_pixel_covers(info, x, y, last, j, b);
                assert(pixel_covers(info, x + v, y + u, b));
                lemma_pixels_disjoint(info, x + j, y + last, x + v, y + u, b);
            }
        }
        lemma_paint_row_outside(prev, info, x, y, last, rows.last(), b);
    }
}

} // verus!
