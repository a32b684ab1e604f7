//! CPU-side pixel layout conversions for texture uploads.
//!
//! Dear ImGui hands textures over as tightly or loosely pitched rows of RGBA32 or Alpha8 texels.
//! The renderer always uploads RGBA8: alpha-only texels become white with the given alpha.

use vstd::arithmetic::mul::{lemma_mul_inequality, lemma_mul_is_distributive_add};
use vstd::prelude::*;

verus! {

/// Texel formats that Dear ImGui produces.
#[derive(Clone, Copy, Debug, PartialEq, Eq, Structural, Hash)]
pub enum TextureFormat {
    /// Four bytes per texel: red, green, blue, alpha.
    RGBA32,
    /// One byte per texel: alpha.
    Alpha8,
}

/// Bytes per texel of `format`.
pub open spec fn bytes_per_pixel(format: TextureFormat) -> int {
    match format {
        TextureFormat::RGBA32 => 4,
        TextureFormat::Alpha8 => 1,
    }
}

impl TextureFormat {
    /// Bytes per texel.
    pub fn bytes_per_pixel(self) -> (r: usize)
        ensures
            r == bytes_per_pixel(self),
    {
        match self {
            TextureFormat::RGBA32 => 4,
            TextureFormat::Alpha8 => 1,
        }
    }
}

/// One row of `width` texels starting at byte `start` of `pixels`, as RGBA8.
pub open spec fn rgba_row(format: TextureFormat, pixels: Seq<u8>, start: int, width: int) -> Seq<u8> {
    match format {
        TextureFormat::RGBA32 => pixels.subrange(start, start + 4 * width),
        TextureFormat::Alpha8 => Seq::new(
            (4 * width) as nat,
            |i: int|
                if i % 4 == 3 {
                    pixels[start + i / 4]
                } else {
                    255u8
                },
        ),
    }
}

/// The first `rows` rows of `width` texels, row `r` starting at byte `base + r * stride`,
/// concatenated as RGBA8.
pub open spec fn rgba_rows(
    format: TextureFormat,
    pixels: Seq<u8>,
    width: int,
    rows: nat,
    base: int,
    stride: int,
) -> Seq<u8>
    decreases rows,
{
    if rows == 0 {
        Seq::empty()
    } else {
        rgba_rows(format, pixels, width, (rows - 1) as nat, base, stride) + rgba_row(
            format,
            pixels,
            base + (rows - 1) * stride,
            width,
        )
    }
}

/// Whether an upload of `width` x `height` texels with `row_pitch` bytes between rows is
/// laid out inside `len` bytes and every size computation fits in `usize`.
pub open spec fn upload_layout_ok(
    format: TextureFormat,
    width: int,
    height: int,
    row_pitch: int,
    len: int,
) -> bool {
    let packed = width * bytes_per_pixel(format);
    &&& width > 0
    &&& height > 0
    &&& packed <= usize::MAX
    &&& row_pitch >= packed
    &&& (height - 1) * row_pitch <= usize::MAX
    &&& (height - 1) * row_pitch + packed <= usize::MAX
    &&& (height - 1) * row_pitch + packed <= len
    &&& width * height <= usize::MAX
    &&& width * height * 4 <= usize::MAX
}

/// Pushes the RGBA8 conversion of one source row onto `out`.
fn push_rgba_row(
    out: &mut Vec<u8>,
    format: TextureFormat,
    pixels: &[u8],
    start: usize,
    width: usize,
)
    requires
        start + width * bytes_per_pixel(format) <= pixels@.len(),
        old(out)@.len() + 4 * width <= usize::MAX,
    ensures
        final(out)@ == old(out)@ + rgba_row(format, pixels@, start as int, width as int),
{
    let len = pixels.len();
    let ghost row = rgba_row(format, pixels@, start as int, width as int);
    match format {
        TextureFormat::RGBA32 => {
            let mut j: usize = 0;
            while j < 4 * width
                invariant
                    format == TextureFormat::RGBA32,
                    row == rgba_row(format, pixels@, start as int, width as int),
                    start + width * 4 <= pixels@.len(),
                    len == pixels@.len(),
                    j <= 4 * width,
                    out@ == old(out)@ + row.take(j as int),
                decreases 4 * width - j,
            {
                proof {
                    assert(row.take(j + 1) =~= row.take(j as int).push(pixels@[start + j]));
                }
                out.push(pixels[start + j]);
                j = j + 1;
            }
            proof {
                assert(row.take(4 * width) =~= row);
            }
        },
        TextureFormat::Alpha8 => {
            let mut col: usize = 0;
            while col < width
                invariant
                    format == TextureFormat::Alpha8,
                    row == rgba_row(format, pixels@, start as int, width as int),
                    start + width <= pixels@.len(),
                    len == pixels@.len(),
                    old(out)@.len() + 4 * width <= usize::MAX,
                    col <= width,
                    out@ == old(out)@ + row.take(4 * col),
                decreases width - col,
            {
                let alpha = pixels[start + col];
                proof {
                    assert(row.take(4 * (col + 1)) =~= row.take(4 * col).push(255u8).push(
                        255u8,
                    ).push(255u8).push(alpha));
                }
                out.push(255);
                out.push(255);
                out.push(255);
                out.push(alpha);
                col = col + 1;
            }
            proof {
                assert(row.take(4 * width) =~= row);
            }
        },
    }
}

/// Converts a pitched upload of `width` x `height` texels into tightly packed RGBA8.
///
/// `None` when a dimension is zero, `row_pitch` is shorter than one packed row, `pixels` does
/// not hold the last row, or a size does not fit in `usize`.
pub fn texture_upload_to_rgba(
    format: TextureFormat,
    width: u32,
    height: u32,
    row_pitch: usize,
    pixels: &[u8],
) -> (r: Option<Vec<u8>>)
    ensures
        r is Some <==> upload_layout_ok(
            format,
            width as int,
            height as int,
            row_pitch as int,
            pixels@.len() as int,
        ),
        r matches Some(out) ==> out@ == rgba_rows(
            format,
            pixels@,
            width as int,
            height as nat,
            0,
            row_pitch as int,
        ),
{
    let width = width as usize;
    let height = height as usize;
    if width == 0 || height == 0 {
        return None;
    }
    let source_bpp = format.bytes_per_pixel();
    let packed_row = match width.checked_mul(source_bpp) {
        Some(n) => n,
        None => return None,
    };
    if row_pitch < packed_row {
        return None;
    }
    let last_start = match (height - 1).checked_mul(row_pitch) {
        Some(n) => n,
        None => return None,
    };
    let required = match last_start.checked_add(packed_row) {
        Some(n) => n,
        None => return None,
    };
    if pixels.len() < required {
        return None;
    }
    let texels = match width.checked_mul(height) {
        Some(n) => n,
        None => return None,
    };
    let total = match texels.checked_mul(4) {
        Some(n) => n,
        None => return None,
    };
    let mut rgba: Vec<u8> = Vec::new();
    let mut row: usize = 0;
    while row < height
        invariant
            upload_layout_ok(
                format,
                width as int,
                height as int,
                row_pitch as int,
                pixels@.len() as int,
            ),
            packed_row == width * bytes_per_pixel(format),
            total == width * height * 4,
            row <= height,
            rgba@.len() == row * width * 4,
            rgba@ == rgba_rows(format, pixels@, width as int, row as nat, 0, row_pitch as int),
        decreases height - row,
    {
        proof {
            lemma_mul_inequality(row as int, height - 1, row_pitch as int);
            lemma_mul_inequality(row + 1, height as int, width as int);
            lemma_mul_is_distributive_add(width as int, row as int, 1);
            assert((row + 1) * width * 4 <= width * height * 4) by (nonlinear_arith)
                requires
                    row + 1 <= height,
            ;
            assert((row + 1) * width * 4 == row * width * 4 + 4 * width) by (nonlinear_arith);
        }
        let start = row * row_pitch;
        push_rgba_row(&mut rgba, format, pixels, start, width);
        row = row + 1;
    }
    Some(rgba)
}

/// Whether an RGBA8 `w` x `h` block fits at (`x`, `y`) of a `dw` x `dh` RGBA8 image whose
/// buffers have the given lengths, with every size computation inside `usize`.
pub open spec fn rgba_rect_fits(
    dest_len: int,
    dw: int,
    dh: int,
    x: int,
    y: int,
    w: int,
    h: int,
    src_len: int,
) -> bool {
    &&& dw * dh <= usize::MAX
    &&& dw * dh * 4 <= usize::MAX
    &&& w * 4 <= usize::MAX
    &&& w * 4 * h <= usize::MAX
    &&& dest_len == dw * dh * 4
    &&& src_len == w * 4 * h
    &&& x + w <= dw
    &&& y + h <= dh
}

/// `dest` with its first `rows` rectangle rows replaced: row `r` of the `w`-texel-wide block
/// `src` lands at texel (`x`, `y + r`) of the `dw`-texel-wide image.
pub open spec fn blit_rows(dest: Seq<u8>, dw: int, x: int, y: int, w: int, rows: nat, src: Seq<u8>) -> Seq<
    u8,
>
    decreases rows,
{
    if rows == 0 {
        dest
    } else {
        let d = blit_rows(dest, dw, x, y, w, (rows - 1) as nat, src);
        let at = ((y + rows - 1) * dw + x) * 4;
        d.subrange(0, at) + src.subrange(4 * w * (rows - 1), 4 * w * rows) + d.subrange(
            at + 4 * w,
            d.len() as int,
        )
    }
}

/// Byte offset, in a `dw`-texel-wide RGBA8 image, of byte `i` of block row `row` placed at texel
/// (`x`, `y`).
pub open spec fn blit_offset(dw: int, x: int, y: int, row: int, i: int) -> int {
    ((y + row) * dw + x) * 4 + i
}

/// Byte offset of byte `i` of row `row` in a tightly packed RGBA8 block `w` texels wide.
pub open spec fn block_offset(w: int, row: int, i: int) -> int {
    row * (w * 4) + i
}

/// Whether byte `k` of the image is covered by the first `rows` rows of a `w`-texel-wide block
/// placed at texel (`x`, `y`).
pub open spec fn blit_target(k: int, dw: int, x: int, y: int, w: int, rows: int) -> bool {
    exists|r: int, i: int| 0 <= r < rows && 0 <= i < w * 4 && k == #[trigger] blit_offset(dw, x, y, r, i)
}

/// Byte by byte, `blit_rows` copies each block byte to its place and leaves every other byte.
pub proof fn lemma_blit_rows_elementwise(
    dest: Seq<u8>,
    dw: int,
    x: int,
    y: int,
    w: int,
    rows: nat,
    src: Seq<u8>,
)
    requires
        0 <= x,
        0 <= y,
        0 <= w,
        x + w <= dw,
        (y + rows) * dw * 4 <= dest.len(),
        rows * (w * 4) <= src.len(),
    ensures
        blit_rows(dest, dw, x, y, w, rows, src).len() == dest.len(),
        forall|r: int, i: int|
            0 <= r < rows && 0 <= i < w * 4 ==> #[trigger] blit_rows(dest, dw, x, y, w, rows, src)[blit_offset(
                dw,
                x,
                y,
                r,
                i,
            )] == src[block_offset(w, r, i)],
        forall|k: int|
            0 <= k < dest.len() && !blit_target(k, dw, x, y, w, rows as int) ==> #[trigger] blit_rows(
                dest,
                dw,
                x,
                y,
                w,
                rows,
                src,
            )[k] == dest[k],
    decreases rows,
{
    if rows > 0 {
        let n = (rows - 1) as nat;
        assert((y + n) * dw * 4 <= (y + rows) * dw * 4) by (nonlinear_arith)
            requires
                0 <= y,
                0 <= dw,
                n < rows,
        ;
        assert(n * (w * 4) <= rows * (w * 4)) by (nonlinear_arith)
            requires
                0 <= w,
                n < rows,
        ;
        lemma_blit_rows_elementwise(dest, dw, x, y, w, n, src);
        let d = blit_rows(dest, dw, x, y, w, n, src);
        let at = ((y + rows - 1) * dw + x) * 4;
        assert(at == ((y + n) * dw + x) * 4);
        assert(at + 4 * w <= (y + rows) * dw * 4 && 0 <= at) by (nonlinear_arith)
            requires
                at == ((y + n) * dw + x) * 4,
                n + 1 == rows,
                0 <= x,
                0 <= y,
                0 <= w,
                x + w <= dw,
        ;
        assert(4 * w * n == n * (w * 4) && 4 * w * rows == n * (w * 4) + w * 4 && 4 * w * rows
            == rows * (w * 4) && 0 <= 4 * w * n) by (nonlinear_arith)
            requires
                n + 1 == rows,
                0 <= w,
        ;
        let a = 4 * w * n;
        let res = blit_rows(dest, dw, x, y, w, rows, src);
        assert(res == d.subrange(0, at) + src.subrange(a, a + 4 * w) + d.subrange(
            at + 4 * w,
            d.len() as int,
        ));
        assert(res.len() == dest.len());
        assert forall|k: int| 0 <= k < at implies res[k] == d[k] by {}
        assert forall|k: int| at <= k < at + 4 * w implies res[k] == src[a + (k - at)] by {}
        assert forall|k: int| at + 4 * w <= k < dest.len() implies res[k] == d[k] by {}
        assert forall|r: int, i: int| 0 <= r < rows && 0 <= i < w * 4 implies #[trigger] res[blit_offset(
            dw,
            x,
            y,
            r,
            i,
        )] == src[block_offset(w, r, i)] by {
            if r == n {
                assert(blit_offset(dw, x, y, r, i) == at + i);
                assert(block_offset(w, r, i) == a + i);
            } else {
                assert(blit_offset(dw, x, y, r, i) < at) by (nonlinear_arith)
                    requires
                        0 <= r < n,
                        0 <= i < w * 4,
                        x + w <= dw,
                        at == ((y + n) * dw + x) * 4,
                        blit_offset(dw, x, y, r, i) == ((y + r) * dw + x) * 4 + i,
                        0 <= x,
                ;
                assert(0 <= blit_offset(dw, x, y, r, i)) by (nonlinear_arith)
                    requires
                        0 <= r,
                        0 <= i,
                        0 <= y,
                        0 <= x,
                        0 <= w,
                        x + w <= dw,
                        blit_offset(dw, x, y, r, i) == ((y + r) * dw + x) * 4 + i,
                ;
                assert(d[blit_offset(dw, x, y, r, i)] == src[block_offset(w, r, i)]);
            }
        }
        assert forall|k: int|
            0 <= k < dest.len() && !blit_target(k, dw, x, y, w, rows as int) implies #[trigger] res[k]
            == dest[k] by {
            if at <= k < at + 4 * w {
                assert(k == blit_offset(dw, x, y, n as int, k - at));
                assert(false);
            }
            if blit_target(k, dw, x, y, w, n as int) {
                let (r, i) = choose|r: int, i: int|
                    0 <= r < n && 0 <= i < w * 4 && k == #[trigger] blit_offset(dw, x, y, r, i);
                assert(k == blit_offset(dw, x, y, r, i));
                assert(false);
            }
            assert(res[k] == d[k]);
        }
    }
}

/// Copies the tightly packed RGBA8 block `source` of `width` x `height` texels into the RGBA8
/// image `destination` of `destination_width` x `destination_height` texels at (`x`, `y`).
///
/// Returns false, leaving `destination` unchanged, when a buffer length does not match its
/// dimensions or the block does not fit.
pub fn apply_rgba_rect(
    destination: &mut [u8],
    destination_width: u32,
    destination_height: u32,
    x: u32,
    y: u32,
    width: u32,
    height: u32,
    source: &[u8],
) -> (r: bool)
    ensures
        r == rgba_rect_fits(
            old(destination)@.len() as int,
            destination_width as int,
            destination_height as int,
            x as int,
            y as int,
            width as int,
            height as int,
            source@.len() as int,
        ),
        r ==> final(destination)@ == blit_rows(
            old(destination)@,
            destination_width as int,
            x as int,
            y as int,
            width as int,
            height as nat,
            source@,
        ),
        r ==> forall|row: int, i: int|
            0 <= row < height && 0 <= i < width * 4 ==> #[trigger] final(destination)@[blit_offset(
                destination_width as int,
                x as int,
                y as int,
                row,
                i,
            )] == source@[block_offset(width as int, row, i)],
        r ==> forall|k: int|
            0 <= k < old(destination)@.len() && !blit_target(
                k,
                destination_width as int,
                x as int,
                y as int,
                width as int,
                height as int,
            ) ==> #[trigger] final(destination)@[k] == old(destination)@[k],
        !r ==> final(destination)@ == old(destination)@,
{
    let dw = destination_width as usize;
    let dh = destination_height as usize;
    let (x, y, w, h) = (x as usize, y as usize, width as usize, height as usize);
    let texels = match dw.checked_mul(dh) {
        Some(n) => n,
        None => return false,
    };
    let destination_len = match texels.checked_mul(4) {
        Some(n) => n,
        None => return false,
    };
    let source_row_len = match w.checked_mul(4) {
        Some(n) => n,
        None => return false,
    };
    let source_len = match source_row_len.checked_mul(h) {
        Some(n) => n,
        None => return false,
    };
    if destination.len() != destination_len || source.len() != source_len {
        return false;
    }
    let right = match x.checked_add(w) {
        Some(n) => n,
        None => return false,
    };
    let bottom = match y.checked_add(h) {
        Some(n) => n,
        None => return false,
    };
    if right > dw || bottom > dh {
        return false;
    }
    let ghost orig = destination@;
    let mut row: usize = 0;
    while row < h
        invariant
            destination@.len() == dw * dh * 4,
            source@.len() == w * 4 * h,
            source@.len() == source_len,
            destination@.len() == destination_len,
            dw * dh * 4 <= usize::MAX,
            source_row_len == w * 4,
            x + w <= dw,
            y + h <= dh,
            row <= h,
            destination@ == blit_rows(orig, dw as int, x as int, y as int, w as int, row as nat, source@),
        decreases h - row,
    {
        proof {
            assert(((y + row) * dw + x + w) * 4 <= dw * dh * 4) by (nonlinear_arith)
                requires
                    y + row < dh,
                    x + w <= dw,
            ;
            assert(((y + row) * dw + x + w) * 4 == ((y + row) * dw + x) * 4 + w * 4)
                by (nonlinear_arith);
            assert((row + 1) * (w * 4) <= w * 4 * h) by (nonlinear_arith)
                requires
                    row + 1 <= h,
            ;
            assert((row + 1) * (w * 4) == row * (w * 4) + w * 4) by (nonlinear_arith);
            assert(4 * w * row == row * (w * 4) && 4 * w * (row + 1) == (row + 1) * (w * 4))
                by (nonlinear_arith);
        }
        let at = ((y + row) * dw + x) * 4;
        let src_start = row * source_row_len;
        let ghost d = destination@;
        let ghost row_bytes = source@.subrange(src_start as int, src_start + source_row_len);
        let mut j: usize = 0;
        while j < source_row_len
            invariant
                d.len() == dw * dh * 4,
                d.len() == destination_len,
                source@.len() == source_len,
                destination@.len() == destination_len,
                at + source_row_len <= d.len(),
                src_start + source_row_len <= source@.len(),
                row_bytes == source@.subrange(src_start as int, src_start + source_row_len),
                j <= source_row_len,
                destination@ == d.subrange(0, at as int) + row_bytes.take(j as int) + d.subrange(
                    at + j,
                    d.len() as int,
                ),
            decreases source_row_len - j,
        {
            let v = source[src_start + j];
            destination[at + j] = v;
            proof {
                assert(destination@ =~= d.subrange(0, at as int) + row_bytes.take(j + 1)
                    + d.subrange(at + j + 1, d.len() as int));
            }
            j = j + 1;
        }
        proof {
            assert(row_bytes.take(source_row_len as int) =~= row_bytes);
            assert(d == blit_rows(orig, dw as int, x as int, y as int, w as int, row as nat, source@));
            assert(blit_rows(orig, dw as int, x as int, y as int, w as int, (row + 1) as nat, source@)
                =~= d.subrange(0, at as int) + row_bytes + d.subrange(at + source_row_len, d.len() as int));
        }
        row = row + 1;
    }
    proof {
        assert((y + h) * dw * 4 <= dw * dh * 4) by (nonlinear_arith)
            requires
                y + h <= dh,
        ;
        assert(h * (w * 4) == w * 4 * h) by (nonlinear_arith);
        lemma_blit_rows_elementwise(orig, dw as int, x as int, y as int, w as int, h as nat, source@);
    }
    true
}

/// CPU view of a Dear ImGui texture: its format, size and, when present, its texels.
#[derive(Clone, Debug, PartialEq, Eq)]
pub struct TextureDataView {
    /// Texel format.
    pub format: TextureFormat,
    /// Width in texels.
    pub width: u32,
    /// Height in texels.
    pub height: u32,
    /// Tightly packed texels, row by row.
    pub pixels: Option<Vec<u8>>,
}

/// The texel buffer of `td`, when present, holds the whole texture.
pub open spec fn texture_pixels_complete(td: TextureDataView) -> bool {
    td.pixels matches Some(p) ==> p@.len() >= td.width * td.height * bytes_per_pixel(td.format)
}

/// Smaller of two integers.
pub open spec fn min_int(a: int, b: int) -> int {
    if a <= b {
        a
    } else {
        b
    }
}

/// Whether a sub-rectangle read at (`x`, `y`) of size `w` x `h` yields texels: the texture and
/// the request are nonempty, the origin lies inside the texture, and the clipped output size
/// fits in `usize`.
pub open spec fn subrect_readable(td: TextureDataView, x: int, y: int, w: int, h: int) -> bool {
    &&& td.pixels is Some
    &&& td.width > 0
    &&& td.height > 0
    &&& w > 0
    &&& h > 0
    &&& x < td.width
    &&& y < td.height
    &&& min_int(w, td.width - x) * min_int(h, td.height - y) * 4 <= usize::MAX
}

/// The texels of the sub-rectangle clipped to the texture, as RGBA8 rows.
pub open spec fn subrect_rgba(td: TextureDataView, x: int, y: int, w: int, h: int) -> Seq<u8> {
    let bpp = bytes_per_pixel(td.format);
    rgba_rows(
        td.format,
        td.pixels.unwrap()@,
        min_int(w, td.width - x),
        min_int(h, td.height - y) as nat,
        (y * td.width + x) * bpp,
        td.width * bpp,
    )
}

/// Reads the sub-rectangle at (`x`, `y`) of size `w` x `h`, clipped to the texture, as RGBA8.
pub fn texture_data_to_rgba_subrect(td: &TextureDataView, x: u32, y: u32, w: u32, h: u32) -> (r:
    Option<Vec<u8>>)
    requires
        texture_pixels_complete(*td),
    ensures
        r is Some <==> subrect_readable(*td, x as int, y as int, w as int, h as int),
        r matches Some(out) ==> out@ == subrect_rgba(*td, x as int, y as int, w as int, h as int),
{
    let pixels = match &td.pixels {
        Some(p) => p,
        None => return None,
    };
    let tex_w = td.width as usize;
    let tex_h = td.height as usize;
    if tex_w == 0 || tex_h == 0 {
        return None;
    }
    let (x, y, w, h) = (x as usize, y as usize, w as usize, h as usize);
    if w == 0 || h == 0 || x >= tex_w || y >= tex_h {
        return None;
    }
    let w = if w <= tex_w - x {
        w
    } else {
        tex_w - x
    };
    let h = if h <= tex_h - y {
        h
    } else {
        tex_h - y
    };
    let bpp = td.format.bytes_per_pixel();
    let texels = match w.checked_mul(h) {
        Some(n) => n,
        None => return None,
    };
    match texels.checked_mul(4) {
        Some(_) => {},
        None => return None,
    };
    let len = pixels.len();
    let ghost base = (y * tex_w + x) * bpp;
    let ghost stride = tex_w * bpp;
    proof {
        assert(tex_w * tex_h * bpp <= len);
        assert(y * tex_w + tex_w <= tex_h * tex_w) by (nonlinear_arith)
            requires
                y < tex_h,
        ;
    }
    let mut out: Vec<u8> = Vec::new();
    let mut row: usize = 0;
    while row < h
        invariant
            len == pixels@.len(),
            tex_w * tex_h * bpp <= len,
            bpp == bytes_per_pixel(td.format),
            1 <= bpp <= 4,
            x + w <= tex_w,
            y + h <= tex_h,
            w * h * 4 <= usize::MAX,
            base == (y * tex_w + x) * bpp,
            stride == tex_w * bpp,
            row <= h,
            out@.len() == row * w * 4,
            out@ == rgba_rows(td.format, pixels@, w as int, row as nat, base, stride),
        decreases h - row,
    {
        proof {
            assert(((y + row) * tex_w + x + w) * bpp <= tex_w * tex_h * bpp) by (nonlinear_arith)
                requires
                    y + row < tex_h,
                    x + w <= tex_w,
                    1 <= bpp,
            ;
            assert(base + row * stride == ((y + row) * tex_w + x) * bpp) by (nonlinear_arith)
                requires
                    base == (y * tex_w + x) * bpp,
                    stride == tex_w * bpp,
            ;
            assert(((y + row) * tex_w + x + w) * bpp == ((y + row) * tex_w + x) * bpp + w * bpp)
                by (nonlinear_arith);
            assert((row + 1) * w * 4 <= w * h * 4) by (nonlinear_arith)
                requires
                    row + 1 <= h,
            ;
            assert((row + 1) * w * 4 == row * w * 4 + 4 * w) by (nonlinear_arith);
        }
        let start = ((y + row) * tex_w + x) * bpp;
        push_rgba_row(&mut out, td.format, pixels.as_slice(), start, w);
        row = row + 1;
    }
    Some(out)
}

/// Reads the whole texture as RGBA8; `None` for an empty texture.
pub fn texture_data_to_rgba_full(td: &TextureDataView) -> (r: Option<Vec<u8>>)
    requires
        texture_pixels_complete(*td),
    ensures
        r is Some <==> (td.width > 0 && td.height > 0 && subrect_readable(
            *td,
            0,
            0,
            td.width as int,
            td.height as int,
        )),
        r matches Some(out) ==> out@ == subrect_rgba(
            *td,
            0,
            0,
            td.width as int,
            td.height as int,
        ),
{
    if td.width == 0 || td.height == 0 {
        return None;
    }
    texture_data_to_rgba_subrect(td, 0, 0, td.width, td.height)
}

/// An update rectangle as Dear ImGui reports it.
#[derive(Clone, Copy, Debug, PartialEq, Eq, Structural, Hash)]
pub struct TextureRect {
    /// Left edge in texels.
    pub x: u16,
    /// Top edge in texels.
    pub y: u16,
    /// Width in texels.
    pub w: u16,
    /// Height in texels.
    pub h: u16,
}

/// `rect` clipped to a `tw` x `th` texture, as origin and size.
pub open spec fn clamped_rect(rect: TextureRect, tw: u32, th: u32) -> (u32, u32, u32, u32) {
    let x = min_int(rect.x as int, tw as int) as u32;
    let y = min_int(rect.y as int, th as int) as u32;
    if rect.w == 0 || rect.h == 0 || rect.x >= tw || rect.y >= th {
        (x, y, 0, 0)
    } else {
        (
            x,
            y,
            min_int(rect.w as int, tw - rect.x) as u32,
            min_int(rect.h as int, th - rect.y) as u32,
        )
    }
}

/// Clips `rect` to a `tw` x `th` texture; an empty or outside rectangle keeps its clamped
/// origin and gets zero size.
pub fn clamp_rect(rect: TextureRect, tw: u32, th: u32) -> (r: (u32, u32, u32, u32))
    ensures
        r == clamped_rect(rect, tw, th),
        r.0 == min_int(rect.x as int, tw as int),
        r.1 == min_int(rect.y as int, th as int),
        (rect.w == 0 || rect.h == 0 || rect.x >= tw || rect.y >= th) ==> (r.2 == 0 && r.3 == 0),
        !(rect.w == 0 || rect.h == 0 || rect.x >= tw || rect.y >= th) ==> {
            &&& r.2 == min_int(rect.w as int, tw - rect.x)
            &&& r.3 == min_int(rect.h as int, th - rect.y)
        },
{
    let x = if (rect.x as u32) <= tw {
        rect.x as u32
    } else {
        tw
    };
    let y = if (rect.y as u32) <= th {
        rect.y as u32
    } else {
        th
    };
    let w = rect.w as u32;
    let h = rect.h as u32;
    if w == 0 || h == 0 || x >= tw || y >= th {
        return (x, y, 0, 0);
    }
    let cw = if w <= tw - x {
        w
    } else {
        tw - x
    };
    let ch = if h <= th - y {
        h
    } else {
        th - y
    };
    (x, y, cw, ch)
}

/// A clipped update rectangle lies inside the texture.
pub proof fn law_clamped_rect_inside(rect: TextureRect, tw: u32, th: u32)
    ensures
        clamped_rect(rect, tw, th).0 + clamped_rect(rect, tw, th).2 <= tw,
        clamped_rect(rect, tw, th).1 + clamped_rect(rect, tw, th).3 <= th,
{
}

} // verus!
