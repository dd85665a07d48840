//! A single-pass encoder that turns an in-memory raster of RGB pixels into a
//! complete PNG-style container: the fixed eight-byte signature followed by a
//! header chunk, one compressed data chunk, and a terminator chunk, each
//! framed with a length prefix and a trailing checksum.

use vstd::prelude::*;

pub mod checksum;
pub mod chunk;
pub mod scanline;

verus! {

/// A pixel with red, green and blue channels, eight bits each.
#[derive(Clone, Copy, PartialEq, Eq, Structural)]
pub struct RGBPixel {
    pub red: u8,
    pub green: u8,
    pub blue: u8,
}

/// The picture data that is to be encoded: a row-major pixel grid.
/// Pixel at row `r`, column `c` lives at index `r * width + c`.
pub struct Picture {
    pub pixels: Vec<RGBPixel>,
    pub width: u32,
    pub height: u32,
}

/// The mathematical content of a `Picture`.
pub ghost struct RasterView {
    pub pixels: Seq<RGBPixel>,
    pub width: u32,
    pub height: u32,
}

impl View for Picture {
    type V = RasterView;

    open spec fn view(&self) -> RasterView {
        RasterView { pixels: self.pixels@, width: self.width, height: self.height }
    }
}

/// A well-formed raster holds exactly one pixel per grid cell.
pub open spec fn raster_valid(v: RasterView) -> bool {
    v.pixels.len() == v.width * v.height
}

/// The deflate stream that the compressor produces for `input` at the given
/// effort level. The compressor is deterministic, so the result is a function
/// of its arguments alone.
pub uninterp spec fn deflate_of(input: Seq<u8>, level: u8) -> Seq<u8>;

/// Relies on miniz_oxide::deflate::compress_to_vec: a deterministic deflate
/// compressor that accepts any byte sequence and any effort level (levels
/// above ten are clamped) and never fails.
#[verifier::external_body]
fn deflate(input: &Vec<u8>, level: u8) -> (r: Vec<u8>)
    ensures
        r@ == deflate_of(input@, level),
{
    miniz_oxide::deflate::compress_to_vec(input.as_slice(), level)
}

/// The compressor effort level the encoder uses.
pub const DEFAULT_COMPRESSION_LEVEL: u8 = 6;

/// The fixed eight-byte signature that opens every container.
pub open spec fn png_signature() -> Seq<u8> {
    seq![0x89u8, 0x50u8, 0x4Eu8, 0x47u8, 0x0Du8, 0x0Au8, 0x1Au8, 0x0Au8]
}

/// The type tag of the header chunk, the ASCII bytes "IHDR".
pub open spec fn ihdr_tag() -> Seq<u8> {
    seq![0x49u8, 0x48u8, 0x44u8, 0x52u8]
}

/// The type tag of the data chunk, the ASCII bytes "IDAT".
pub open spec fn idat_tag() -> Seq<u8> {
    seq![0x49u8, 0x44u8, 0x41u8, 0x54u8]
}

/// The type tag of the terminator chunk, the ASCII bytes "IEND".
pub open spec fn iend_tag() -> Seq<u8> {
    seq![0x49u8, 0x45u8, 0x4Eu8, 0x44u8]
}

/// The thirteen-byte header payload: width and height, big-endian, then the
/// fixed fields — bit depth eight, truecolor, deflate compression, filter
/// method zero, no interlacing.
pub open spec fn ihdr_payload(v: RasterView) -> Seq<u8> {
    chunk::be32(v.width) + chunk::be32(v.height) + seq![8u8, 2u8, 0u8, 0u8, 0u8]
}

/// The three framed chunks of a minimal container, in order: header, data,
/// terminator.
pub open spec fn chunk_stream(v: RasterView, level: u8) -> Seq<u8> {
    chunk::frame_bytes(ihdr_tag(), ihdr_payload(v))
        + chunk::frame_bytes(idat_tag(), deflate_of(scanline::assembled(v), level))
        + chunk::frame_bytes(iend_tag(), Seq::empty())
}

/// The complete container: the fixed signature followed by the chunk stream.
pub open spec fn composed_bytes(v: RasterView, level: u8) -> Seq<u8> {
    png_signature() + chunk_stream(v, level)
}

/// Encoding succeeds exactly when the raster is well formed and the
/// compressed data fits the 32-bit chunk length field.
pub open spec fn compose_ok(v: RasterView, level: u8) -> bool {
    raster_valid(v) && deflate_of(scanline::assembled(v), level).len() <= u32::MAX
}

/// Checks that the raster holds exactly one pixel per grid cell.
fn check_raster(picture: &Picture) -> (r: bool)
    ensures
        r == raster_valid(picture@),
{
    proof {
        assert((picture.width as u64) * (picture.height as u64) <= 0xFFFFFFFFu64
            * 0xFFFFFFFFu64) by (nonlinear_arith)
            requires
                picture.width <= 0xFFFFFFFFu64,
                picture.height <= 0xFFFFFFFFu64,
        ;
    }
    picture.pixels.len() as u64 == (picture.width as u64) * (picture.height as u64)
}

/// Builds the header payload from the raster's dimensions.
fn build_ihdr_payload(picture: &Picture) -> (out: Vec<u8>)
    ensures
        out@ == ihdr_payload(picture@),
{
    let mut out: Vec<u8> = Vec::new();
    chunk::push_be32(&mut out, picture.width);
    chunk::push_be32(&mut out, picture.height);
    out.push(8);
    out.push(2);
    out.push(0);
    out.push(0);
    out.push(0);
    assert(out@ =~= ihdr_payload(picture@));
    out
}

/// Builds the three framed chunks of the container, in order.
fn build_chunks(picture: &Picture, level: u8) -> (r: Result<Vec<u8>, chunk::EncodeError>)
    ensures
        compose_ok(picture@, level) ==> (r matches Ok(out) && out@ == chunk_stream(
            picture@,
            level,
        )),
        !raster_valid(picture@) ==> r == Result::<Vec<u8>, chunk::EncodeError>::Err(
            chunk::EncodeError::InvalidRaster,
        ),
        raster_valid(picture@) && !compose_ok(picture@, level) ==> r == Result::<
            Vec<u8>,
            chunk::EncodeError,
        >::Err(chunk::EncodeError::OversizedPayload),
{
    if !check_raster(picture) {
        return Err(chunk::EncodeError::InvalidRaster);
    }

    let ihdr_data = build_ihdr_payload(picture);
    let ihdr_type: [u8; 4] = [0x49, 0x48, 0x44, 0x52];
    assert(ihdr_type@ =~= ihdr_tag());
    let mut out = match chunk::frame(&ihdr_type, &ihdr_data) {
        Ok(c) => c,
        Err(e) => { return Err(e); },
    };

    let scan = scanline::assemble(picture);
    let compressed = deflate(&scan, level);
    let idat_type: [u8; 4] = [0x49, 0x44, 0x41, 0x54];
    assert(idat_type@ =~= idat_tag());
    let mut idat = match chunk::frame(&idat_type, &compressed) {
        Ok(c) => c,
        Err(e) => { return Err(e); },
    };

    let iend_data: Vec<u8> = Vec::new();
    let iend_type: [u8; 4] = [0x49, 0x45, 0x4E, 0x44];
    assert(iend_type@ =~= iend_tag());
    let mut iend = match chunk::frame(&iend_type, &iend_data) {
        Ok(c) => c,
        Err(e) => { return Err(e); },
    };

    out.append(&mut idat);
    out.append(&mut iend);
    assert(compose_ok(picture@, level) ==> out@ =~= chunk_stream(picture@, level));
    Ok(out)
}

/// Encodes the raster as a complete container byte stream: the fixed
/// signature, the header chunk, one data chunk holding the compressed
/// scanlines at the given effort level, and the terminator chunk.
///
/// An empty raster (width or height zero, no pixels) is accepted and yields a
/// structurally valid container whose data chunk carries the compression of
/// an empty scanline stream.
pub fn compose(picture: &Picture, level: u8) -> (r: Result<Vec<u8>, chunk::EncodeError>)
    ensures
        r is Ok <==> compose_ok(picture@, level),
        r matches Ok(out) ==> out@ == composed_bytes(picture@, level),
        !raster_valid(picture@) ==> r == Result::<Vec<u8>, chunk::EncodeError>::Err(
            chunk::EncodeError::InvalidRaster,
        ),
        raster_valid(picture@) && !compose_ok(picture@, level) ==> r == Result::<
            Vec<u8>,
            chunk::EncodeError,
        >::Err(chunk::EncodeError::OversizedPayload),
{
    match build_chunks(picture, level) {
        Ok(chunks) => {
            let mut out: Vec<u8> = Vec::new();
            out.push(0x89);
            out.push(0x50);
            out.push(0x4E);
            out.push(0x47);
            out.push(0x0D);
            out.push(0x0A);
            out.push(0x1A);
            out.push(0x0A);
            assert(out@ =~= png_signature());
            let mut chunks = chunks;
            out.append(&mut chunks);
            Ok(out)
        },
        Err(e) => Err(e),
    }
}

/// Two encodings of the same raster at the same effort level are
/// byte-identical: the container is a function of its inputs alone.
pub proof fn lemma_compose_deterministic(v: RasterView, level: u8, out1: Seq<u8>, out2: Seq<u8>)
    requires
        out1 == composed_bytes(v, level),
        out2 == composed_bytes(v, level),
    ensures
        out1 == out2,
{
}

/// A finished container: the fixed signature and the framed chunk stream.
pub struct PngImage {
    pub signature: [u8; 8],
    pub data: Vec<u8>,
}

impl PngImage {
    /// Creates a PngImage holding the container data encoded from `picture`
    /// at the default effort level.
    pub fn new(picture: &Picture) -> (r: PngImage)
        requires
            raster_valid(picture@),
            deflate_of(scanline::assembled(picture@), DEFAULT_COMPRESSION_LEVEL).len()
                <= u32::MAX,
        ensures
            r.signature@ == png_signature(),
            r.data@ == chunk_stream(picture@, DEFAULT_COMPRESSION_LEVEL),
    {
        let data = match build_chunks(picture, DEFAULT_COMPRESSION_LEVEL) {
            Ok(d) => d,
            Err(_) => vstd::pervasive::unreached(),
        };
        let signature: [u8; 8] = [0x89, 0x50, 0x4E, 0x47, 0x0D, 0x0A, 0x1A, 0x0A];
        assert(signature@ =~= png_signature());
        PngImage { signature, data }
    }

    /// Encodes `picture` after checking, at run time, that the raster is well
    /// formed and that its compressed data fits a chunk's 32-bit length
    /// field; returns nothing when either check fails.
    pub fn try_new(picture: &Picture) -> (r: Option<PngImage>)
        ensures
            r is Some <==> compose_ok(picture@, DEFAULT_COMPRESSION_LEVEL),
            r matches Some(img) ==> img.signature@ == png_signature() && img.data@
                == chunk_stream(picture@, DEFAULT_COMPRESSION_LEVEL),
    {
        if !check_raster(picture) {
            return None;
        }
        let scan = scanline::assemble(picture);
        let compressed = deflate(&scan, DEFAULT_COMPRESSION_LEVEL);
        if compressed.len() > u32::MAX as usize {
            return None;
        }
        Some(PngImage::new(picture))
    }
}

} // verus!
