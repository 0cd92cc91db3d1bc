use femtophotos::image_loading::{decode_attempt, load_image, Channels, DecodeError};

fn png_bytes(width: u32, height: u32, color: png::ColorType, pixels: &[u8]) -> Vec<u8> {
    let mut out: Vec<u8> = Vec::new();
    {
        let mut encoder = png::Encoder::new(&mut out, width, height);
        encoder.set_color(color);
        encoder.set_depth(png::BitDepth::Eight);
        let mut writer = encoder.write_header().unwrap();
        writer.write_image_data(pixels).unwrap();
    }
    out
}

fn jpeg_bytes(width: u32, height: u32, rgb: Vec<u8>) -> Vec<u8> {
    let img = image::RgbImage::from_raw(width, height, rgb).unwrap();
    let mut cursor = std::io::Cursor::new(Vec::new());
    img.write_to(&mut cursor, image::ImageFormat::Jpeg).unwrap();
    cursor.into_inner()
}

fn ext(e: &str) -> Vec<u8> {
    e.as_bytes().to_vec()
}

#[test]
fn test_png_fast_path_rgb() {
    let pixels: Vec<u8> = (0..2 * 2 * 3u8).collect();
    let bytes = png_bytes(2, 2, png::ColorType::Rgb, &pixels);
    let img = decode_attempt(Some(&ext("png")), &bytes).unwrap();
    assert_eq!(img.get_size(), (2, 2));
    assert_eq!(img.channels(), Channels::Rgb);
    // PNG is lossless: the fast path must hand back the exact pixels.
    assert_eq!(img.pixels(), &pixels);
}

#[test]
fn test_png_fast_path_rgba() {
    let pixels: Vec<u8> = (0..2 * 3 * 4u8).collect();
    let bytes = png_bytes(2, 3, png::ColorType::Rgba, &pixels);
    let img = decode_attempt(Some(&ext("PNG")), &bytes).unwrap();
    assert_eq!(img.get_size(), (2, 3));
    assert_eq!(img.channels(), Channels::Rgba);
    assert_eq!(img.pixels(), &pixels);
}

#[test]
fn test_qoi_fast_path() {
    let pixels: Vec<u8> = (0..3 * 2 * 4u8).collect();
    let bytes = qoi::encode_to_vec(&pixels, 3, 2).unwrap();
    let img = decode_attempt(Some(&ext("qoi")), &bytes).unwrap();
    assert_eq!(img.get_size(), (3, 2));
    assert_eq!(img.channels(), Channels::Rgba);
    // QOI is lossless too.
    assert_eq!(img.pixels(), &pixels);
}

#[test]
fn test_qoi_fast_path_rgb() {
    let pixels: Vec<u8> = vec![10, 20, 30, 40, 50, 60];
    let bytes = qoi::encode_to_vec(&pixels, 2, 1).unwrap();
    let img = decode_attempt(Some(&ext("qoi")), &bytes).unwrap();
    assert_eq!(img.get_size(), (2, 1));
    assert_eq!(img.channels(), Channels::Rgb);
    assert_eq!(img.pixels(), &pixels);
}

#[test]
fn test_jpeg_fast_path_forces_rgba() {
    let rgb = vec![128u8; 8 * 8 * 3];
    let bytes = jpeg_bytes(8, 8, rgb);
    let img = decode_attempt(Some(&ext("jpg")), &bytes).unwrap();
    assert_eq!(img.get_size(), (8, 8));
    // The dedicated JPEG decompressor always hands back 4 channels.
    assert_eq!(img.channels(), Channels::Rgba);
    assert_eq!(img.pixels().len(), 8 * 8 * 4);
}

#[test]
fn test_jfif_extension_uses_jpeg_fast_path() {
    let rgb = vec![90u8; 4 * 4 * 3];
    let bytes = jpeg_bytes(4, 4, rgb);
    let img = decode_attempt(Some(&ext("JFIF")), &bytes).unwrap();
    assert_eq!(img.get_size(), (4, 4));
    assert_eq!(img.channels(), Channels::Rgba);
}

#[test]
fn test_fallback_ordering_jpg_extension_png_bytes() {
    // A file named like a JPEG but holding PNG bytes fails the fast path and
    // must come back through the generic sniffing decoder. The generic RGB
    // stage runs before the RGBA one, so the result keeps 3 channels — the
    // fast JPEG path would have forced 4.
    let pixels: Vec<u8> = (0..2 * 2 * 3u8).collect();
    let bytes = png_bytes(2, 2, png::ColorType::Rgb, &pixels);
    let img = decode_attempt(Some(&ext("jpg")), &bytes).unwrap();
    assert_eq!(img.get_size(), (2, 2));
    assert_eq!(img.channels(), Channels::Rgb);
    assert_eq!(img.pixels(), &pixels);
}

#[test]
fn test_unknown_extension_sniffed() {
    // No usable extension at all: only the generic stages are left.
    let pixels: Vec<u8> = (0..1 * 1 * 3u8).collect();
    let bytes = png_bytes(1, 1, png::ColorType::Rgb, &pixels);
    let img = decode_attempt(None, &bytes).unwrap();
    assert_eq!(img.get_size(), (1, 1));
    assert_eq!(img.channels(), Channels::Rgb);
    let img2 = decode_attempt(Some(&ext("dat")), &bytes).unwrap();
    assert_eq!(img2.get_size(), (1, 1));
}

#[test]
fn test_generic_rgba_stage() {
    // An RGBA PNG under a wrong extension: the fast path fails on the
    // extension, the generic RGB stage rejects the alpha channel, and the
    // generic RGBA stage finally decodes it.
    let pixels: Vec<u8> = (0..2 * 2 * 4u8).collect();
    let bytes = png_bytes(2, 2, png::ColorType::Rgba, &pixels);
    let img = decode_attempt(Some(&ext("dat")), &bytes).unwrap();
    assert_eq!(img.get_size(), (2, 2));
    assert_eq!(img.channels(), Channels::Rgba);
    assert_eq!(img.pixels(), &pixels);
}

#[test]
fn test_ico_sniffed_by_generic_decoder() {
    // `ico` is navigable but has no fast decoder: it reaches the screen
    // through the format-sniffing stages.
    let img = image::RgbaImage::from_raw(4, 4, vec![200u8; 4 * 4 * 4]).unwrap();
    let mut cursor = std::io::Cursor::new(Vec::new());
    img.write_to(&mut cursor, image::ImageFormat::Ico).unwrap();
    let bytes = cursor.into_inner();
    let decoded = decode_attempt(Some(&ext("ico")), &bytes).unwrap();
    assert_eq!(decoded.get_size(), (4, 4));
    assert_eq!(decoded.channels(), Channels::Rgba);
}

#[test]
fn test_corrupt_bytes_fail_every_stage() {
    let garbage = vec![0xDEu8, 0xAD, 0xBE, 0xEF, 1, 2, 3, 4, 5, 6, 7, 8];
    let err = decode_attempt(Some(&ext("png")), &garbage).unwrap_err();
    assert_eq!(err, DecodeError::CorruptData);
}

#[test]
fn test_grayscale_png_is_recoverable_color_mode_failure() {
    // A grayscale PNG is rejected by the fast path as an unsupported color
    // mode (not a process abort) and the generic stages cannot produce RGB
    // or RGBA from it either, so the attempt ends in a color-mode error.
    let pixels = vec![100u8, 200u8, 50u8, 25u8];
    let bytes = png_bytes(2, 2, png::ColorType::Grayscale, &pixels);
    let err = decode_attempt(Some(&ext("png")), &bytes).unwrap_err();
    assert_eq!(err, DecodeError::UnsupportedColorMode);
}

#[test]
fn test_terminal_fallback_unreadable_file() {
    // An unreadable requested file yields the placeholder's image, not an
    // error.
    let ph_pixels: Vec<u8> = (0..3 * 1 * 3u8).collect();
    let ph = png_bytes(3, 1, png::ColorType::Rgb, &ph_pixels);
    let img = load_image(Some(&ext("jpg")), None, Some(&ext("png")), Some(&ph)).unwrap();
    assert_eq!(img.get_size(), (3, 1));
    assert_eq!(img.channels(), Channels::Rgb);
}

#[test]
fn test_terminal_fallback_corrupt_file() {
    let garbage = vec![1u8, 2, 3];
    let ph_pixels = vec![9u8; 2 * 2 * 3];
    let ph = png_bytes(2, 2, png::ColorType::Rgb, &ph_pixels);
    let img = load_image(Some(&ext("png")), Some(&garbage), Some(&ext("png")), Some(&ph)).unwrap();
    assert_eq!(img.get_size(), (2, 2));
}

#[test]
fn test_terminal_fallback_good_file_ignores_placeholder() {
    let pixels = vec![3u8; 1 * 1 * 3];
    let good = png_bytes(1, 1, png::ColorType::Rgb, &pixels);
    let ph = png_bytes(2, 2, png::ColorType::Rgb, &vec![0u8; 12]);
    let img = load_image(Some(&ext("png")), Some(&good), Some(&ext("png")), Some(&ph)).unwrap();
    assert_eq!(img.get_size(), (1, 1));
}

#[test]
fn test_fatal_when_placeholder_missing() {
    let err = load_image(Some(&ext("jpg")), None, Some(&ext("png")), None).unwrap_err();
    assert_eq!(err.file_error, DecodeError::IoError);
    assert_eq!(err.placeholder_error, DecodeError::IoError);
}

#[test]
fn test_fatal_when_placeholder_corrupt() {
    let garbage = vec![0u8, 1, 2, 3];
    let err = load_image(Some(&ext("png")), None, Some(&ext("png")), Some(&garbage)).unwrap_err();
    assert_eq!(err.file_error, DecodeError::IoError);
    assert_eq!(err.placeholder_error, DecodeError::CorruptData);
}
