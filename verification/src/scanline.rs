//! The scanline assembler: linearizes the pixel grid into the byte stream the
//! container format expects, one row at a time, each row led by a filter-type
//! marker byte of zero ("no filter") and followed by the red, green and blue
//! bytes of its pixels, left to right.

use vstd::prelude::*;

use crate::{raster_valid, Picture, RGBPixel, RasterView};

verus! {

/// The three channel bytes of one pixel, in red-green-blue order.
pub open spec fn pixel_bytes(p: RGBPixel) -> Seq<u8> {
    seq![p.red, p.green, p.blue]
}

/// The channel bytes of the first `c` pixels of row `r`, left to right.
pub open spec fn row_bytes(v: RasterView, r: int, c: int) -> Seq<u8>
    decreases c,
{
    if c <= 0 {
        Seq::empty()
    } else {
        row_bytes(v, r, c - 1) + pixel_bytes(v.pixels[r * v.width + (c - 1)])
    }
}

/// The offset at which row `r` starts inside the assembled stream.
pub open spec fn row_start(v: RasterView, r: int) -> int {
    r * (1 + 3 * v.width)
}

/// One scanline: the zero filter-type marker, then the whole row's bytes.
pub open spec fn scanline_bytes(v: RasterView, r: int) -> Seq<u8> {
    seq![0u8] + row_bytes(v, r, v.width as int)
}

/// The first `h` scanlines, top to bottom.
pub open spec fn scanlines_upto(v: RasterView, h: int) -> Seq<u8>
    decreases h,
{
    if h <= 0 {
        Seq::empty()
    } else {
        scanlines_upto(v, h - 1) + scanline_bytes(v, h - 1)
    }
}

/// The assembled byte stream of the whole raster: every scanline, top to
/// bottom. This is the uncompressed input handed to the compressor.
pub open spec fn assembled(v: RasterView) -> Seq<u8> {
    scanlines_upto(v, v.height as int)
}

/// A partial row holds three bytes per pixel.
pub proof fn lemma_row_bytes_len(v: RasterView, r: int, c: int)
    requires
        0 <= c,
    ensures
        row_bytes(v, r, c).len() == 3 * c,
    decreases c,
{
    if c > 0 {
        lemma_row_bytes_len(v, r, c - 1);
    }
}

/// A prefix of the scanlines holds `1 + 3 * width` bytes per row, and the
/// byte that starts each row — its filter-type marker — is zero.
pub proof fn lemma_scanlines_upto_layout(v: RasterView, h: int)
    requires
        0 <= h,
    ensures
        scanlines_upto(v, h).len() == h * (1 + 3 * v.width),
        forall|r: int|
            0 <= r < h ==> scanlines_upto(v, h)[#[trigger] row_start(v, r)] == 0,
    decreases h,
{
    let row_len = 1 + 3 * v.width;
    if h > 0 {
        lemma_scanlines_upto_layout(v, h - 1);
        lemma_row_bytes_len(v, h - 1, v.width as int);
        assert(h * row_len == (h - 1) * row_len + row_len) by (nonlinear_arith);
        assert forall|r: int| 0 <= r < h implies scanlines_upto(v, h)[#[trigger] row_start(v, r)] == 0 by {
            assert(row_start(v, r) == r * row_len);
            if r < h - 1 {
                assert(r * row_len < (h - 1) * row_len) by (nonlinear_arith)
                    requires
                        r < h - 1,
                        row_len > 0,
                ;
                assert(0 <= r * row_len) by (nonlinear_arith)
                    requires
                        0 <= r,
                        row_len > 0,
                ;
            } else {
                assert(r == h - 1);
                assert(scanline_bytes(v, h - 1)[0] == 0);
            }
        }
    }
}

/// For every raster, the assembled stream holds `height * (1 + 3 * width)`
/// bytes, and the byte at each row's start — offset `r * (1 + 3 * width)` —
/// is the zero filter-type marker.
pub proof fn lemma_assembled_layout(v: RasterView)
    requires
        raster_valid(v),
    ensures
        assembled(v).len() == v.height * (1 + 3 * v.width),
        forall|r: int|
            0 <= r < v.height ==> assembled(v)[#[trigger] row_start(v, r)] == 0,
{
    lemma_scanlines_upto_layout(v, v.height as int);
}

/// Linearizes a well-formed raster into its scanline byte stream.
pub fn assemble(picture: &Picture) -> (out: Vec<u8>)
    requires
        raster_valid(picture@),
    ensures
        out@ == assembled(picture@),
{
    let width = picture.width;
    let height = picture.height;
    let n_pixels = picture.pixels.len();
    let mut out: Vec<u8> = Vec::new();
    let mut pixel_i: usize = 0;
    proof {
        assert(0 * width == 0) by (nonlinear_arith);
    }
    for r in 0..height
        invariant
            width == picture@.width,
            height == picture@.height,
            n_pixels == picture@.pixels.len(),
            raster_valid(picture@),
            pixel_i == r * width,
            out@ == scanlines_upto(picture@, r as int),
    {
        out.push(0);
        for c in 0..width
            invariant
                width == picture@.width,
                height == picture@.height,
                n_pixels == picture@.pixels.len(),
                raster_valid(picture@),
                r < height,
                pixel_i == r * width + c,
                out@ == scanlines_upto(picture@, r as int) + seq![0u8] + row_bytes(
                    picture@,
                    r as int,
                    c as int,
                ),
        {
            proof {
                assert(r * width + c < width * height) by (nonlinear_arith)
                    requires
                        r < height,
                        c < width,
                ;
            }
            let px = picture.pixels[pixel_i];
            out.push(px.red);
            out.push(px.green);
            out.push(px.blue);
            pixel_i = pixel_i + 1;
            assert(out@ =~= scanlines_upto(picture@, r as int) + seq![0u8] + row_bytes(
                picture@,
                r as int,
                c + 1,
            ));
        }
        proof {
            assert((r + 1) * width == r * width + width) by (nonlinear_arith);
            assert(out@ =~= scanlines_upto(picture@, r + 1));
        }
    }
    out
}

} // verus!
