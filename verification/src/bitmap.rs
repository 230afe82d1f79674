//! The embedded boot-splash bitmap decoder.
//!
//! A bitmap file stores its width, height, bits-per-pixel and pixel-array
//! offset at fixed byte offsets, its pixel rows bottom-to-top with each row
//! padded to a 4-byte boundary, and each pixel's channels in blue-green-red
//! order. The decoder produces a top-down buffer of red-green-blue pixels.
//! Only 24 and 32 bits-per-pixel encodings are decoded; any other encoding,
//! and any pixel array that would run outside the buffer, yields an empty
//! pixel buffer while the declared width and height are still reported.
use crate::le::{le16_at, le32_at, read_u16, read_u32};
use vstd::prelude::*;

verus! {

/// One decoded pixel, channels in red-green-blue order.
#[derive(Clone, Copy, Debug, PartialEq, Eq, Structural)]
pub struct Rgb {
    pub red: u8,
    pub green: u8,
    pub blue: u8,
}

/// Byte offset of the pixel array: the 32-bit field at offset 10.
pub open spec fn spec_bmp_data_offset(b: Seq<u8>) -> int {
    le32_at(b, 10) as int
}

/// Width in pixels: the 32-bit field at offset 18.
pub open spec fn spec_bmp_width(b: Seq<u8>) -> int {
    le32_at(b, 18) as int
}

/// Height in pixels: the 32-bit field at offset 22.
pub open spec fn spec_bmp_height(b: Seq<u8>) -> int {
    le32_at(b, 22) as int
}

/// Bits per pixel: the 16-bit field at offset 28.
pub open spec fn spec_bmp_bpp(b: Seq<u8>) -> int {
    le16_at(b, 28) as int
}

/// Bytes per pixel, rounding the declared bit width up to whole bytes.
pub open spec fn spec_bmp_bytes_per_pixel(b: Seq<u8>) -> int {
    (spec_bmp_bpp(b) + 7) / 8
}

/// Bytes per stored row: the pixel bytes padded up to a 4-byte boundary.
pub open spec fn spec_bmp_stride(b: Seq<u8>) -> int {
    ((spec_bmp_bytes_per_pixel(b) * spec_bmp_width(b) + 3) / 4) * 4
}

/// Only uncompressed 24 and 32 bits-per-pixel encodings are decoded.
pub open spec fn spec_bmp_supported(b: Seq<u8>) -> bool {
    spec_bmp_bpp(b) == 24 || spec_bmp_bpp(b) == 32
}

/// The declared pixel array lies inside the buffer.
pub open spec fn spec_bmp_in_bounds(b: Seq<u8>) -> bool {
    spec_bmp_data_offset(b) + spec_bmp_stride(b) * spec_bmp_height(b) <= b.len()
}

/// The decoded pixel of output row `i` (top-down) and column `j`: the stored
/// rows run bottom-to-top, and the stored channel order blue-green-red is
/// reversed.
pub open spec fn spec_bmp_pixel(b: Seq<u8>, i: int, j: int) -> Rgb {
    let base = spec_bmp_data_offset(b) + (spec_bmp_height(b) - 1 - i) * spec_bmp_stride(b) + j
        * spec_bmp_bytes_per_pixel(b);
    Rgb { red: b[base + 2], green: b[base + 1], blue: b[base] }
}

/// Decodes the bitmap in `bmp` into its declared width and height and a
/// top-down red-green-blue pixel buffer. For an unsupported encoding, or a
/// pixel array that would run outside the buffer, the pixel buffer is empty
/// and the declared width and height are still reported; a caller cannot
/// tell that outcome from an image with no pixels without also checking the
/// dimensions.
pub fn convert_bmp(bmp: &Vec<u8>) -> (r: (usize, usize, Vec<Rgb>))
    requires
        bmp.len() >= 30,
    ensures
        r.0 == spec_bmp_width(bmp@),
        r.1 == spec_bmp_height(bmp@),
        spec_bmp_supported(bmp@) && spec_bmp_in_bounds(bmp@) ==> {
            &&& r.2@.len() == spec_bmp_width(bmp@) * spec_bmp_height(bmp@)
            &&& forall|i: int, j: int|
                0 <= i < spec_bmp_height(bmp@) && 0 <= j < spec_bmp_width(bmp@) ==> r.2@[i
                    * spec_bmp_width(bmp@) + j] == #[trigger] spec_bmp_pixel(bmp@, i, j)
        },
        !(spec_bmp_supported(bmp@) && spec_bmp_in_bounds(bmp@)) ==> r.2@.len() == 0,
{
    let w32 = read_u32(bmp, 18);
    let h32 = read_u32(bmp, 22);
    let bpp = read_u16(bmp, 28);
    let data_off32 = read_u32(bmp, 10);
    let w = w32 as usize;
    let h = h32 as usize;
    let data_off = data_off32 as usize;
    let mut pixels: Vec<Rgb> = Vec::new();
    if !(bpp == 24 || bpp == 32) {
        return (w, h, pixels);
    }
    let bpp8: usize = if bpp == 24 {
        3
    } else {
        4
    };
    let ghost gw = spec_bmp_width(bmp@);
    let ghost gh = spec_bmp_height(bmp@);
    let ghost gd = spec_bmp_data_offset(bmp@);
    let ghost gs = spec_bmp_stride(bmp@);
    let stride64: u64 = ((bpp8 as u64) * (w32 as u64) + 3) / 4 * 4;
    proof {
        assert(stride64 == gs);
    }
    proof {
        assert((stride64 as int) * (h32 as int) < 0x1_0000_0000_0000_0000_0000_0000) by (nonlinear_arith)
            requires
                stride64 <= 0xFFFF_FFFF_FFFF_FFFFu64,
                h32 <= 0xFFFF_FFFFu32,
        ;
    }
    let need: u128 = (data_off32 as u128) + (stride64 as u128) * (h32 as u128);
    if need > bmp.len() as u128 {
        return (w, h, pixels);
    }
    if h == 0 {
        return (w, h, pixels);
    }
    proof {
        assert(gs <= gs * gh) by (nonlinear_arith)
            requires
                gs >= 0,
                gh >= 1,
        ;
    }
    let stride = stride64 as usize;
    proof {
        assert(bpp8 * gw <= gs) by (nonlinear_arith)
            requires
                gs == ((bpp8 * gw + 3) / 4) * 4,
                bpp8 >= 0,
                gw >= 0,
        ;
    }
    let mut i: usize = 0;
    while i < h
        invariant
            bmp.len() >= 30,
            spec_bmp_supported(bmp@),
            spec_bmp_in_bounds(bmp@),
            gw == spec_bmp_width(bmp@),
            gh == spec_bmp_height(bmp@),
            gd == spec_bmp_data_offset(bmp@),
            gs == spec_bmp_stride(bmp@),
            w == gw,
            h == gh,
            data_off == gd,
            stride == gs,
            bpp8 == spec_bmp_bytes_per_pixel(bmp@),
            bpp8 == 3 || bpp8 == 4,
            bpp8 * gw <= gs,
            gd + gs * gh <= bmp.len(),
            0 <= i <= h,
            pixels@.len() == i * gw,
            forall|i0: int, j0: int|
                0 <= i0 < i && 0 <= j0 < gw ==> pixels@[i0 * gw + j0] == #[trigger] spec_bmp_pixel(
                    bmp@,
                    i0,
                    j0,
                ),
        decreases h - i,
    {
        proof {
            assert((gh - 1 - i) * gs + gs <= gh * gs) by (nonlinear_arith)
                requires
                    0 <= i < gh,
                    gs >= 0,
            ;
            assert(gh * gs == gs * gh) by (nonlinear_arith);
        }
        let row_base = data_off + (h - 1 - i) * stride;
        let mut j: usize = 0;
        while j < w
            invariant
                bmp.len() >= 30,
                spec_bmp_supported(bmp@),
                spec_bmp_in_bounds(bmp@),
                gw == spec_bmp_width(bmp@),
                gh == spec_bmp_height(bmp@),
                gd == spec_bmp_data_offset(bmp@),
                gs == spec_bmp_stride(bmp@),
                w == gw,
                h == gh,
                data_off == gd,
                stride == gs,
                bpp8 == spec_bmp_bytes_per_pixel(bmp@),
                bpp8 == 3 || bpp8 == 4,
                bpp8 * gw <= gs,
                gd + gs * gh <= bmp.len(),
                0 <= i < h,
                row_base == gd + (gh - 1 - i) * gs,
                row_base + gs <= bmp.len(),
                0 <= j <= w,
                pixels@.len() == i * gw + j,
                forall|i0: int, j0: int|
                    0 <= i0 < i && 0 <= j0 < gw ==> pixels@[i0 * gw + j0]
                        == #[trigger] spec_bmp_pixel(bmp@, i0, j0),
                forall|j0: int|
                    0 <= j0 < j ==> pixels@[i * gw + j0] == #[trigger] spec_bmp_pixel(
                        bmp@,
                        i as int,
                        j0,
                    ),
            decreases w - j,
        {
            proof {
                assert(j * bpp8 + bpp8 <= gw * bpp8) by (nonlinear_arith)
                    requires
                        0 <= j < gw,
                        bpp8 >= 0,
                ;
                assert(gw * bpp8 == bpp8 * gw) by (nonlinear_arith);
            }
            let p = row_base + j * bpp8;
            let px = Rgb { red: bmp[p + 2], green: bmp[p + 1], blue: bmp[p] };
            proof {
                assert(px == spec_bmp_pixel(bmp@, i as int, j as int));
            }
            pixels.push(px);
            proof {
                assert forall|i0: int, j0: int|
                    0 <= i0 < i && 0 <= j0 < gw implies pixels@[i0 * gw + j0]
                    == #[trigger] spec_bmp_pixel(bmp@, i0, j0) by {
                    assert(i0 * gw + j0 < i * gw) by (nonlinear_arith)
                        requires
                            0 <= i0,
                            i0 + 1 <= i,
                            0 <= j0,
                            j0 < gw,
                    ;
                }
            }
            j = j + 1;
        }
        proof {
            assert forall|i0: int, j0: int|
                0 <= i0 < i + 1 && 0 <= j0 < gw implies pixels@[i0 * gw + j0]
                == #[trigger] spec_bmp_pixel(bmp@, i0, j0) by {
                if i0 < i {
                    assert(pixels@[i0 * gw + j0] == spec_bmp_pixel(bmp@, i0, j0));
                } else {
                    assert(pixels@[i * gw + j0] == spec_bmp_pixel(bmp@, i as int, j0));
                }
            }
            assert(i * gw + gw == (i + 1) * gw) by (nonlinear_arith);
        }
        i = i + 1;
    }
    proof {
        assert(h * gw == gw * gh) by (nonlinear_arith)
            requires
                h == gh,
        ;
    }
    (w, h, pixels)
}

} // verus!
