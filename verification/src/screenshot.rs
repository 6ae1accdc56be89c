use vstd::arithmetic::div_mod::lemma_fundamental_div_mod_converse;
use vstd::arithmetic::mul::lemma_mul_inequality;
use vstd::prelude::*;

verus! {

/// Bytes in one pixel of the swapchain texture and of the exported image.
pub const BYTES_PER_PIXEL: u32 = 4;

/// `n` rounded up to a multiple of `align`.
pub open spec fn round_up(n: int, align: int) -> int {
    if n % align == 0 {
        n
    } else {
        (n / align + 1) * align
    }
}

/// How a texture of `width` by `height` pixels is laid out when it is copied
/// into a buffer whose rows must start at multiples of the copy alignment.
pub struct ScreenshotLayout {
    pub unpadded_bytes_per_row: u32,
    pub padded_bytes_per_row: u32,
    pub buffer_size: u64,
}

/// The row lengths and buffer size for copying a `width` by `height` texture
/// with rows aligned to `align` bytes.
pub fn screenshot_layout(width: u32, height: u32, align: u32) -> (layout: ScreenshotLayout)
    requires
        align > 0,
        width * BYTES_PER_PIXEL <= u32::MAX,
        round_up(width * BYTES_PER_PIXEL, align as int) <= u32::MAX,
        round_up(width * BYTES_PER_PIXEL, align as int) * height <= u32::MAX,
    ensures
        layout.unpadded_bytes_per_row == width * BYTES_PER_PIXEL,
        layout.padded_bytes_per_row == round_up(width * BYTES_PER_PIXEL, align as int),
        layout.buffer_size == layout.padded_bytes_per_row * height,
        layout.unpadded_bytes_per_row <= layout.padded_bytes_per_row,
        layout.padded_bytes_per_row < layout.unpadded_bytes_per_row + align,
        layout.padded_bytes_per_row % align == 0,
{
    let unpadded = width * BYTES_PER_PIXEL;
    let rem = unpadded % align;
    let padded = if rem == 0 {
        unpadded
    } else {
        (unpadded / align + 1) * align
    };
    proof {
        lemma_round_up_bounds(unpadded as int, align as int);
    }
    let buffer_size = (padded * height) as u64;
    ScreenshotLayout { unpadded_bytes_per_row: unpadded, padded_bytes_per_row: padded, buffer_size }
}

/// A multiple of `align` at least `n` and less than `n + align`.
pub proof fn lemma_round_up_bounds(n: int, align: int)
    requires
        n >= 0,
        align > 0,
    ensures
        n <= round_up(n, align) < n + align,
        round_up(n, align) % align == 0,
{
    let q = n / align;
    let r = n % align;
    vstd::arithmetic::div_mod::lemma_fundamental_div_mod(n, align);
    if r != 0 {
        assert((q + 1) * align == q * align + align) by (nonlinear_arith);
        lemma_fundamental_div_mod_converse((q + 1) * align, align, q + 1, 0);
    } else {
        lemma_fundamental_div_mod_converse(n, align, q, 0);
    }
}

/// The source byte for output channel `c`: blue and red trade places.
pub open spec fn source_channel(c: int) -> int {
    if c == 0 {
        2
    } else if c == 2 {
        0
    } else {
        c
    }
}

/// Where byte `k` of the tightly packed image comes from in a buffer whose
/// rows are `padded` bytes apart.
pub open spec fn source_index(width: int, padded: int, k: int) -> int {
    let pixel = k / 4;
    (pixel / width) * padded + (pixel % width) * 4 + source_channel(k % 4)
}

/// The exported image: rows without padding, each pixel's first and third
/// bytes exchanged (BGRA to RGBA).
pub open spec fn screenshot_rgba(data: Seq<u8>, width: int, height: int, padded: int) -> Seq<u8> {
    Seq::new((width * height * 4) as nat, |k: int| data[source_index(width, padded, k)])
}

/// Byte `c` of pixel `(x, y)` of the exported image is byte `source_channel(c)`
/// of that pixel in the padded buffer.
pub proof fn lemma_screenshot_pixel(
    data: Seq<u8>,
    width: int,
    height: int,
    padded: int,
    y: int,
    x: int,
    c: int,
)
    requires
        0 <= y < height,
        0 <= x < width,
        0 <= c < 4,
    ensures
        (y * width + x) * 4 + c < screenshot_rgba(data, width, height, padded).len(),
        screenshot_rgba(data, width, height, padded)[(y * width + x) * 4 + c] == data[y * padded
            + x * 4 + source_channel(c)],
{
    lemma_pixel_in_bounds(width, height, y, x);
    lemma_source_index(width, padded, y, x, c);
}

proof fn lemma_pixel_in_bounds(width: int, height: int, y: int, x: int)
    requires
        0 <= y < height,
        0 <= x < width,
    ensures
        y * width + x < width * height,
{
    lemma_mul_inequality(y + 1, height, width);
    assert((y + 1) * width == y * width + width) by (nonlinear_arith);
    assert(height * width == width * height) by (nonlinear_arith);
}

proof fn lemma_source_index(width: int, padded: int, y: int, x: int, c: int)
    requires
        0 <= x < width,
        0 <= y,
        0 <= c < 4,
    ensures
        source_index(width, padded, (y * width + x) * 4 + c) == y * padded + x * 4
            + source_channel(c),
{
    let k = (y * width + x) * 4 + c;
    lemma_fundamental_div_mod_converse(k, 4, y * width + x, c);
    lemma_fundamental_div_mod_converse(y * width + x, width, y, x);
}

/// Turns the mapped copy of a `width` by `height` BGRA texture, whose rows are
/// `padded_bytes_per_row` bytes apart, into tightly packed RGBA bytes.
pub fn unpad_rows_to_rgba(data: &[u8], width: u32, height: u32, padded_bytes_per_row: u32) -> (pixels:
    Vec<u8>)
    requires
        width * height * BYTES_PER_PIXEL <= u32::MAX,
        height == 0 || (height - 1) * padded_bytes_per_row + width * BYTES_PER_PIXEL
            <= data@.len(),
    ensures
        pixels@ == screenshot_rgba(data@, width as int, height as int, padded_bytes_per_row as int),
{
    let w = width as usize;
    let h = height as usize;
    let pr = padded_bytes_per_row as usize;
    let len = data.len();
    let ghost spec_out = screenshot_rgba(data@, w as int, h as int, pr as int);
    let mut out: Vec<u8> = Vec::with_capacity(w * h * 4);
    let mut y: usize = 0;
    while y < h
        invariant
            w == width,
            h == height,
            pr == padded_bytes_per_row,
            width * height * BYTES_PER_PIXEL <= u32::MAX,
            height == 0 || (height - 1) * padded_bytes_per_row + width * BYTES_PER_PIXEL
                <= data@.len(),
            spec_out == screenshot_rgba(data@, w as int, h as int, pr as int),
            len == data@.len(),
            y <= h,
            out@.len() == y * w * 4,
            forall|k: int| 0 <= k < out@.len() ==> out@[k] == spec_out[k],
        decreases h - y,
    {
        proof {
            lemma_mul_inequality(y as int, h - 1, pr as int);
            assert((h - 1) * pr + w * 4 <= data@.len());
            assert(y * pr + w * 4 <= data@.len());
        }
        let row = y * pr;
        let mut x: usize = 0;
        while x < w
            invariant
                w == width,
                h == height,
                pr == padded_bytes_per_row,
                width * height * BYTES_PER_PIXEL <= u32::MAX,
                y < h,
                row == y * pr,
                len == data@.len(),
                row + w * 4 <= data@.len(),
                spec_out == screenshot_rgba(data@, w as int, h as int, pr as int),
                x <= w,
                out@.len() == (y * w + x) * 4,
                forall|k: int| 0 <= k < out@.len() ==> out@[k] == spec_out[k],
            decreases w - x,
        {
            let s = row + x * 4;
            let ghost base = out@.len() as int;
            proof {
                lemma_pixel_in_bounds(w as int, h as int, y as int, x as int);
                assert forall|c: int| 0 <= c < 4 implies spec_out[base + c] == data@[s + source_channel(c)] by {
                    lemma_source_index(w as int, pr as int, y as int, x as int, c);
                }
            }
            out.push(data[s + 2]);
            out.push(data[s + 1]);
            out.push(data[s]);
            out.push(data[s + 3]);
            proof {
                assert forall|k: int| 0 <= k < out@.len() implies out@[k] == spec_out[k] by {
                    if k >= base {
                        assert(spec_out[base + (k - base)] == data@[s + source_channel(k - base)]);
                    }
                }
            }
            x += 1;
        }
        proof {
            assert((y * w + w) * 4 == (y + 1) * w * 4) by (nonlinear_arith);
        }
        y += 1;
    }
    proof {
        assert(h * w * 4 == w * h * 4) by (nonlinear_arith);
        assert(out@ =~= spec_out);
    }
    out
}

} // verus!
