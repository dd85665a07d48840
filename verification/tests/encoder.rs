use pngish::checksum::{gen_crc, gen_crc_table};
use pngish::chunk::{frame, EncodeError};
use pngish::scanline::assemble;
use pngish::{compose, Picture, PngImage, RGBPixel};

const CRC_SEED: u32 = 0xFFFFFFFF;

fn pixel(red: u8, green: u8, blue: u8) -> RGBPixel {
    RGBPixel { red, green, blue }
}

/// A two-by-two raster of pure red pixels.
fn red_2x2() -> Picture {
    Picture {
        pixels: vec![pixel(255, 0, 0), pixel(255, 0, 0), pixel(255, 0, 0), pixel(255, 0, 0)],
        width: 2,
        height: 2,
    }
}

fn be32_at(bytes: &[u8], offset: usize) -> u32 {
    u32::from_be_bytes([bytes[offset], bytes[offset + 1], bytes[offset + 2], bytes[offset + 3]])
}

#[test]
fn crc_matches_published_test_vector() {
    let digits: Vec<u8> = b"123456789".to_vec();
    assert_eq!(gen_crc(CRC_SEED, &digits), 0xCBF43926);
}

#[test]
fn crc_table_has_known_entries() {
    let table = gen_crc_table();
    assert_eq!(table.len(), 256);
    assert_eq!(table[0], 0x00000000);
    assert_eq!(table[1], 0x77073096);
    assert_eq!(table[8], 0x0EDB8832);
    assert_eq!(table[255], 0x2D02EF8D);
}

#[test]
fn crc_of_empty_input_is_inverted_seed() {
    assert_eq!(gen_crc(CRC_SEED, &[]), 0x00000000);
}

#[test]
fn crc_of_iend_tag() {
    assert_eq!(gen_crc(CRC_SEED, b"IEND"), 0xAE426082);
}

#[test]
fn frame_empty_payload_is_twelve_known_bytes() {
    let framed = frame(b"IEND", &Vec::new()).unwrap();
    assert_eq!(
        framed,
        vec![0x00, 0x00, 0x00, 0x00, 0x49, 0x45, 0x4E, 0x44, 0xAE, 0x42, 0x60, 0x82]
    );
}

#[test]
fn frame_length_and_checksum_fields_decode_correctly() {
    let tag: [u8; 4] = *b"teST";
    let payload: Vec<u8> = vec![1, 2, 3, 4, 5];
    let framed = frame(&tag, &payload).unwrap();

    assert_eq!(framed.len(), 12 + payload.len());
    assert_eq!(be32_at(&framed, 0) as usize, payload.len());
    assert_eq!(&framed[4..8], b"teST");
    assert_eq!(&framed[8..13], &payload[..]);

    let mut checksummed = tag.to_vec();
    checksummed.extend_from_slice(&payload);
    assert_eq!(be32_at(&framed, framed.len() - 4), gen_crc(CRC_SEED, &checksummed));
}

#[test]
fn assemble_emits_marker_byte_then_channels_per_row() {
    let picture = Picture {
        pixels: vec![
            pixel(1, 2, 3),
            pixel(4, 5, 6),
            pixel(7, 8, 9),
            pixel(10, 11, 12),
            pixel(13, 14, 15),
            pixel(16, 17, 18),
        ],
        width: 3,
        height: 2,
    };
    let out = assemble(&picture);
    assert_eq!(out.len(), 2 * (1 + 3 * 3));
    assert_eq!(
        out,
        vec![0, 1, 2, 3, 4, 5, 6, 7, 8, 9, 0, 10, 11, 12, 13, 14, 15, 16, 17, 18]
    );
    for row in 0..2 {
        assert_eq!(out[row * (1 + 3 * 3)], 0);
    }
}

#[test]
fn compose_is_idempotent() {
    let first = compose(&red_2x2(), 6).unwrap();
    let second = compose(&red_2x2(), 6).unwrap();
    assert_eq!(first, second);
}

#[test]
fn end_to_end_red_2x2_container() {
    let out = compose(&red_2x2(), 6).unwrap();

    assert_eq!(&out[0..8], &[0x89, 0x50, 0x4E, 0x47, 0x0D, 0x0A, 0x1A, 0x0A]);

    // The header chunk comes first: a 13-byte payload under the "IHDR" tag.
    assert_eq!(be32_at(&out, 8), 13);
    assert_eq!(&out[12..16], b"IHDR");
    assert_eq!(
        &out[16..29],
        &[0x00, 0x00, 0x00, 0x02, 0x00, 0x00, 0x00, 0x02, 0x08, 0x02, 0x00, 0x00, 0x00]
    );

    // The terminator chunk comes last: an empty payload under "IEND".
    assert_eq!(
        &out[out.len() - 12..],
        &[0x00, 0x00, 0x00, 0x00, 0x49, 0x45, 0x4E, 0x44, 0xAE, 0x42, 0x60, 0x82]
    );
}

#[test]
fn idat_payload_inflates_back_to_the_scanlines() {
    let picture = red_2x2();
    let expected_scanlines = assemble(&picture);
    let out = compose(&picture, 6).unwrap();

    // The data chunk follows the 25-byte header chunk and the signature.
    let idat_start = 8 + 25;
    let idat_len = be32_at(&out, idat_start) as usize;
    assert_eq!(&out[idat_start + 4..idat_start + 8], b"IDAT");
    let payload = &out[idat_start + 8..idat_start + 8 + idat_len];

    let inflated = miniz_oxide::inflate::decompress_to_vec(payload).unwrap();
    assert_eq!(inflated, expected_scanlines);
}

#[test]
fn every_chunk_checksum_validates(){
    let out = compose(&red_2x2(), 6).unwrap();
    let mut offset = 8;
    let mut chunks = 0;
    while offset < out.len() {
        let len = be32_at(&out, offset) as usize;
        let tag_and_payload = &out[offset + 4..offset + 8 + len];
        let stored_crc = be32_at(&out, offset + 8 + len);
        assert_eq!(stored_crc, gen_crc(CRC_SEED, tag_and_payload));
        offset += 12 + len;
        chunks += 1;
    }
    assert_eq!(offset, out.len());
    assert_eq!(chunks, 3);
}

#[test]
fn png_image_new_matches_compose() {
    let picture = red_2x2();
    let png = PngImage::new(&picture);
    let out = compose(&picture, 6).unwrap();
    assert_eq!(&png.signature[..], &out[0..8]);
    assert_eq!(&png.data[..], &out[8..]);
}

#[test]
fn try_new_accepts_a_valid_raster() {
    let png = PngImage::try_new(&red_2x2()).unwrap();
    assert_eq!(png.signature, [0x89, 0x50, 0x4E, 0x47, 0x0D, 0x0A, 0x1A, 0x0A]);
    assert!(!png.data.is_empty());
}

#[test]
fn zero_size_raster_yields_a_valid_container() {
    let picture = Picture { pixels: Vec::new(), width: 0, height: 0 };
    let out = compose(&picture, 6).unwrap();

    assert_eq!(&out[0..8], &[0x89, 0x50, 0x4E, 0x47, 0x0D, 0x0A, 0x1A, 0x0A]);
    assert_eq!(be32_at(&out, 8), 13);
    assert_eq!(&out[12..16], b"IHDR");
    assert_eq!(
        &out[16..24],
        &[0x00, 0x00, 0x00, 0x00, 0x00, 0x00, 0x00, 0x00]
    );
    assert_eq!(
        &out[out.len() - 12..],
        &[0x00, 0x00, 0x00, 0x00, 0x49, 0x45, 0x4E, 0x44, 0xAE, 0x42, 0x60, 0x82]
    );

    // The data chunk is present and inflates to an empty scanline stream.
    let idat_start = 8 + 25;
    let idat_len = be32_at(&out, idat_start) as usize;
    assert_eq!(&out[idat_start + 4..idat_start + 8], b"IDAT");
    let payload = &out[idat_start + 8..idat_start + 8 + idat_len];
    let inflated = miniz_oxide::inflate::decompress_to_vec(payload).unwrap();
    assert!(inflated.is_empty());
}

#[test]
fn mismatched_pixel_count_is_rejected() {
    let picture = Picture { pixels: vec![pixel(1, 2, 3)], width: 2, height: 2 };
    assert_eq!(compose(&picture, 6), Err(EncodeError::InvalidRaster));
    assert!(PngImage::try_new(&picture).is_none());
}
