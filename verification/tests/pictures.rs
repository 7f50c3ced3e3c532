use smol_clip::atoms::Atoms;
use smol_clip::clipboard::Clipboard;
use smol_clip::context::{ClipboardContext, ClipboardData};
use smol_clip::error::Error;
use smol_clip::picture::{decode_image, encode_image, is_writable, try_decode_image, ImageData};
use smol_clip::window::XContext;

fn clipboard() -> Clipboard {
    let ids: Vec<u32> = (1..15).collect();
    let atoms = Atoms::from_ids(&ids).unwrap();
    Clipboard::opened(ClipboardContext::fresh(XContext { win_id: 77 }, atoms))
}

fn small_image() -> ImageData {
    ImageData { width: 3, height: 1, bytes: vec![1, 2, 3, 4, 5, 6, 7, 8, 9, 10, 11, 12] }
}

/// The file of the small image, with another header.
fn with_header(width: u32, height: u32, bit_depth: u8, color_type: u8) -> Vec<u8> {
    let mut file = encode_image(&small_image()).unwrap();
    file[16..20].copy_from_slice(&width.to_be_bytes());
    file[20..24].copy_from_slice(&height.to_be_bytes());
    file[24] = bit_depth;
    file[25] = color_type;
    let crc = crc32(&file[12..29]);
    file[29..33].copy_from_slice(&crc.to_be_bytes());
    file
}

/// The checksum of a PNG chunk.
fn crc32(bytes: &[u8]) -> u32 {
    let mut crc: u32 = !0;
    for byte in bytes {
        crc ^= u32::from(*byte);
        for _ in 0..8 {
            crc = if crc & 1 == 1 { (crc >> 1) ^ 0xedb8_8320 } else { crc >> 1 };
        }
    }
    !crc
}

#[test]
fn images_become_png_files() {
    let file = encode_image(&small_image()).unwrap();
    assert_eq!(&file[..8], &[0x89, b'P', b'N', b'G', 13, 10, 26, 10]);
    assert_eq!(&file[12..24], &[b'I', b'H', b'D', b'R', 0, 0, 0, 3, 0, 0, 0, 1]);
    assert_eq!(&file[29..33], &crc32(&file[12..29]).to_be_bytes());
}

#[test]
fn png_files_become_images() {
    let file = encode_image(&small_image()).unwrap();
    assert_eq!(decode_image(&file), Ok(small_image()));
    assert_eq!(try_decode_image(&file), Some(Ok(small_image())));
}

#[test]
fn pictures_without_alpha_become_opaque() {
    let mut file = Vec::new();
    image::png::PngEncoder::new(&mut file)
        .encode(&[10, 20, 30, 40, 50, 60], 2, 1, image::ColorType::Rgb8)
        .unwrap();
    assert_eq!(
        decode_image(&file),
        Ok(ImageData { width: 2, height: 1, bytes: vec![10, 20, 30, 255, 40, 50, 60, 255] })
    );
}

#[test]
fn what_is_no_png_file_is_not_converted() {
    let file = encode_image(&small_image()).unwrap();
    for broken in [vec![], b"GIF89a".to_vec(), file[..40].to_vec()] {
        assert_eq!(decode_image(&broken), Err(Error::ConversionFailure));
        assert_eq!(try_decode_image(&broken), Some(Err(Error::ConversionFailure)));
    }
}

#[test]
fn images_need_four_bytes_for_each_pixel() {
    for length in [0, 11, 13, 16] {
        let image = ImageData { width: 3, height: 1, bytes: vec![0; length] };
        assert_eq!(encode_image(&image), Err(Error::ConversionFailure));
    }
}

#[test]
fn sides_are_cut_to_32_bits() {
    let wide = (1usize << 32) + 1;
    let image = ImageData { width: wide, height: 1, bytes: vec![9, 8, 7, 6] };
    let file = encode_image(&image).unwrap();
    assert_eq!(
        decode_image(&file),
        Ok(ImageData { width: 1, height: 1, bytes: vec![9, 8, 7, 6] })
    );
    let none = ImageData { width: 1usize << 32, height: 1, bytes: vec![] };
    assert_eq!(encode_image(&none), Err(Error::ConversionFailure));
}

#[test]
fn an_image_that_no_memory_holds_is_not_written() {
    let huge = ImageData { width: 0xffff_ffff, height: 0xffff_ffff, bytes: vec![0; 4] };
    assert_eq!(encode_image(&huge), Err(Error::ConversionFailure));
}

#[test]
fn a_file_with_too_little_data_is_not_converted() {
    assert_eq!(try_decode_image(&with_header(3, 1, 8, 6)), Some(Ok(small_image())));
    assert_eq!(
        try_decode_image(&with_header(3, 2, 8, 6)),
        Some(Err(Error::ConversionFailure))
    );
}

#[test]
fn a_picture_that_no_memory_holds_is_not_read() {
    // Black and white, so that a row of it is still small.
    let file = with_header(0x2000_0001, 0xffff_ffff, 1, 0);
    assert_eq!(try_decode_image(&file), None);
    let clipboard = clipboard();
    assert_eq!(
        clipboard.try_finish_image(Ok(ClipboardData { bytes: file, format: 13 })),
        None
    );
}

#[test]
fn a_header_in_two_pieces_is_read_from_the_last() {
    let file = encode_image(&small_image()).unwrap();
    let mut chunk = b"IHDR".to_vec();
    chunk.extend(vec![0; 0x8000]);
    chunk.extend(&file[16..29]);
    let mut long = file[..8].to_vec();
    long.extend((0x8000u32 + 13).to_be_bytes());
    long.extend(&chunk);
    long.extend(crc32(&chunk).to_be_bytes());
    long.extend(&file[33..]);
    assert_eq!(try_decode_image(&long), Some(Ok(small_image())));
}

/// A chunk of a PNG file.
fn chunk(name: &[u8], contents: &[u8]) -> Vec<u8> {
    let mut named = name.to_vec();
    named.extend(contents);
    let mut chunk = (contents.len() as u32).to_be_bytes().to_vec();
    chunk.extend(&named);
    chunk.extend(crc32(&named).to_be_bytes());
    chunk
}

/// The contents of a header.
fn header(width: u32, height: u32, bit_depth: u8, color_type: u8, interlaced: u8) -> Vec<u8> {
    let mut header = width.to_be_bytes().to_vec();
    header.extend(height.to_be_bytes());
    header.extend([bit_depth, color_type, 0, 0, interlaced]);
    header
}

#[test]
fn several_small_headers_are_taken() {
    let file = encode_image(&small_image()).unwrap();
    let mut several = file[..8].to_vec();
    several.extend(chunk(b"IHDR", &header(1, 1, 8, 0, 0)));
    several.extend(&file[8..]);
    assert_eq!(try_decode_image(&several), Some(Ok(small_image())));
}

#[test]
fn a_late_header_of_an_uncountable_picture_is_not_taken() {
    let file = encode_image(&small_image()).unwrap();
    let data = &file[33..file.len() - 12];
    let mut late = file[..8].to_vec();
    late.extend(chunk(b"IHDR", &header(1, 1, 8, 0, 0)));
    let mut control = vec![0, 0, 0, 0];
    control.extend([0, 0, 0, 1, 0, 0, 0, 1]);
    control.extend([0; 14]);
    late.extend(chunk(b"fcTL", &control));
    late.extend(chunk(b"IHDR", &header(1, 1, 8, 0, 0)));
    late.extend(data);
    late.extend(chunk(b"IHDR", &header(0x8000_0000, 0x8000_0000, 8, 2, 1)));
    late.extend(chunk(b"tRNS", &[0; 6]));
    late.extend(data);
    late.extend(chunk(b"IEND", &[]));
    assert_eq!(try_decode_image(&late), None);
}

#[test]
fn a_single_header_of_an_uncountable_picture_is_not_converted() {
    let file = with_header(0xffff_ffff, 0xffff_ffff, 16, 6);
    assert_eq!(try_decode_image(&file), Some(Err(Error::ConversionFailure)));
}

#[test]
fn an_interlaced_picture_is_read() {
    let pixel = ImageData { width: 1, height: 1, bytes: vec![1, 2, 3, 4] };
    let mut file = encode_image(&pixel).unwrap();
    file[28] = 1;
    let crc = crc32(&file[12..29]);
    file[29..33].copy_from_slice(&crc.to_be_bytes());
    assert_eq!(try_decode_image(&file), Some(Ok(pixel)));
}

#[test]
fn letters_of_a_header_elsewhere_are_no_header() {
    let mut file = encode_image(&small_image()).unwrap();
    file.extend(b"IHDR");
    file.extend([0xff; 8]);
    assert_eq!(try_decode_image(&file), Some(Ok(small_image())));
    let mut letters = b"IHDR".to_vec();
    letters.extend([0xff; 4]);
    assert_eq!(try_decode_image(&letters), Some(Err(Error::ConversionFailure)));
}

#[test]
fn sixteen_bit_pictures_are_read() {
    let mut file = Vec::new();
    image::png::PngEncoder::new(&mut file)
        .encode(&[0x80, 0x80, 0xff, 0xff], 2, 1, image::ColorType::L16)
        .unwrap();
    assert_eq!(
        try_decode_image(&file),
        Some(Ok(ImageData {
            width: 2,
            height: 1,
            bytes: vec![0x80, 0x80, 0x80, 255, 255, 255, 255, 255],
        }))
    );
}

#[test]
fn ordinary_images_are_writable() {
    assert!(is_writable(&small_image()));
    assert!(is_writable(&ImageData { width: 3, height: 1, bytes: vec![0; 5] }));
    assert!(is_writable(&ImageData { width: 0, height: 0, bytes: vec![] }));
}

#[test]
fn a_failed_reading_of_an_image_is_passed_on() {
    let clipboard = clipboard();
    assert_eq!(
        clipboard.try_finish_image(Err(Error::ClipboardOccupied)),
        Some(Err(Error::ClipboardOccupied))
    );
    assert_eq!(
        clipboard.finish_image(Err(Error::ContentNotAvailable)),
        Err(Error::ContentNotAvailable)
    );
}

#[test]
fn what_was_read_becomes_an_image() {
    let clipboard = clipboard();
    let bytes = encode_image(&small_image()).unwrap();
    assert_eq!(
        clipboard.finish_image(Ok(ClipboardData { bytes, format: 13 })),
        Ok(small_image())
    );
    assert_eq!(
        clipboard.finish_image(Ok(ClipboardData { bytes: vec![1, 2], format: 13 })),
        Err(Error::ConversionFailure)
    );
}
