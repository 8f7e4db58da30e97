//! The scanline overlay of the retro look: an RGBA image, transparent
//! black, whose even rows are darkened.
use vstd::prelude::*;

verus! {

/// The byte at index `i` of the RGBA buffer of a `width`-pixel-wide overlay:
/// the alpha byte of a pixel in an even row is 55, every other byte 0.
pub open spec fn scanline_byte(width: nat, i: int) -> u8 {
    if i % 4 == 3 && (i / (4 * width as int)) % 2 == 0 {
        55
    } else {
        0
    }
}

/// Index arithmetic of the pixel buffer: byte `k` of the pixel in column
/// `x` of row `y` lies in row `y` and is byte `k` of its pixel.
pub proof fn lemma_pixel_index(width: int, x: int, y: int, k: int)
    requires
        0 <= x < width,
        0 <= y,
        0 <= k < 4,
    ensures
        (4 * (y * width + x) + k) / (4 * width) == y,
        (4 * (y * width + x) + k) % 4 == k,
{
    let i = 4 * (y * width + x) + k;
    assert(i == (4 * width) * y + (4 * x + k)) by (nonlinear_arith)
        requires
            i == 4 * (y * width + x) + k,
    ;
    assert(0 <= 4 * x + k < 4 * width) by (nonlinear_arith)
        requires
            0 <= x < width,
            0 <= k < 4,
    ;
    vstd::arithmetic::div_mod::lemma_div_multiples_vanish_fancy(y, 4 * x + k, 4 * width);
    vstd::arithmetic::div_mod::lemma_mod_multiples_vanish(y * width + x, k, 4);
}

/// The RGBA bytes of the scanline overlay, `width` by `height` pixels, row
/// after row.
pub fn scanline_pixels(width: u32, height: u32) -> (r: Vec<u8>)
    requires
        width * height * 4 <= u32::MAX,
    ensures
        r@.len() == width * height * 4,
        forall|i: int| 0 <= i < r@.len() ==> #[trigger] r@[i] == scanline_byte(width as nat, i),
{
    let w = width;
    let h = height;
    let n: usize = (w * h * 4) as usize;
    let mut pixels: Vec<u8> = vec![0u8; n];
    let mut y: u32 = 0;
    while y < h
        invariant
            y <= h,
            w == width,
            h == height,
            w * h * 4 <= u32::MAX,
            pixels@.len() == n,
            n == w * h * 4,
            forall|j: int|
                0 <= j < n ==> #[trigger] pixels@[j] == (if j < 4 * (y * w) {
                    scanline_byte(w as nat, j)
                } else {
                    0u8
                }),
        decreases h - y,
    {
        let mut x: u32 = 0;
        while x < w
            invariant
                y < h,
                x <= w,
                w == width,
                h == height,
                w * h * 4 <= u32::MAX,
                pixels@.len() == n,
                n == w * h * 4,
                forall|j: int|
                    0 <= j < n ==> #[trigger] pixels@[j] == (if j < 4 * (y * w + x) {
                        scanline_byte(w as nat, j)
                    } else {
                        0u8
                    }),
            decreases w - x,
        {
            assert(4 * (y * w + x) + 3 < n) by (nonlinear_arith)
                requires
                    x < w,
                    y < h,
                    n == w * h * 4,
            ;
            let i = ((y * w + x) * 4) as usize;
            let value: u8 = if y % 2 == 0 {
                55
            } else {
                0
            };
            pixels.set(i + 3, value);
            proof {
                let base = 4 * (y * w + x);
                assert forall|k: int| 0 <= k < 4 implies #[trigger] scanline_byte(w as nat, base + k)
                    == (if k == 3 {
                    value
                } else {
                    0u8
                }) by {
                    lemma_pixel_index(w as int, x as int, y as int, k);
                }
                assert(4 * (y * w + (x + 1)) == base + 4);
                assert forall|j: int| 0 <= j < n implies #[trigger] pixels@[j] == (if j < 4 * (y * w
                    + (x + 1)) {
                    scanline_byte(w as nat, j)
                } else {
                    0u8
                }) by {
                    if base <= j < base + 4 {
                        assert(scanline_byte(w as nat, base + (j - base)) == (if j - base == 3 {
                            value
                        } else {
                            0u8
                        }));
                    }
                }
            }
            x = x + 1;
        }
        assert(4 * ((y + 1) * w) == 4 * (y * w + w)) by (nonlinear_arith);
        y = y + 1;
    }
    assert(4 * (y * w) == n) by (nonlinear_arith)
        requires
            y == h,
            n == w * h * 4,
    ;
    pixels
}

} // verus!
