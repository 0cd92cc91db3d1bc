use femtophotos::image_loading::{normalize, Channels, DecodeError};

#[test]
fn test_normalize_rgb_exact() {
    let bytes: Vec<u8> = (0..24u8).collect();
    let img = normalize(4, 2, Channels::Rgb, bytes.clone()).unwrap();
    assert_eq!(img.width(), 4);
    assert_eq!(img.height(), 2);
    assert_eq!(img.channels(), Channels::Rgb);
    assert_eq!(img.get_size(), (4, 2));
    assert_eq!(img.pixels(), &bytes);
    assert_eq!(img.into_pixels(), bytes);
}

#[test]
fn test_normalize_rgba_exact() {
    let bytes = vec![7u8; 3 * 5 * 4];
    let img = normalize(3, 5, Channels::Rgba, bytes).unwrap();
    assert_eq!(img.get_size(), (3, 5));
    assert_eq!(img.channels(), Channels::Rgba);
    assert_eq!(img.pixels().len(), 60);
}

#[test]
fn test_normalize_size_mismatch() {
    // One byte short, one byte long, and empty: all must be rejected.
    assert_eq!(
        normalize(4, 2, Channels::Rgb, vec![0u8; 23]).unwrap_err(),
        DecodeError::SizeMismatch
    );
    assert_eq!(
        normalize(4, 2, Channels::Rgb, vec![0u8; 25]).unwrap_err(),
        DecodeError::SizeMismatch
    );
    assert_eq!(
        normalize(4, 2, Channels::Rgba, vec![]).unwrap_err(),
        DecodeError::SizeMismatch
    );
    // The same buffer with the other channel count must also be rejected.
    assert_eq!(
        normalize(4, 2, Channels::Rgba, vec![0u8; 24]).unwrap_err(),
        DecodeError::SizeMismatch
    );
}

#[test]
fn test_normalize_zero_sized() {
    // A zero-area image takes an empty buffer, and only an empty one.
    let img = normalize(0, 7, Channels::Rgb, vec![]).unwrap();
    assert_eq!(img.get_size(), (0, 7));
    assert_eq!(
        normalize(0, 7, Channels::Rgb, vec![1u8]).unwrap_err(),
        DecodeError::SizeMismatch
    );
}

#[test]
fn test_normalize_huge_dimensions() {
    // width * height * channels overflows any buffer a test can hold: the
    // declared size can never match, so the result is a size mismatch.
    assert_eq!(
        normalize(u32::MAX, u32::MAX, Channels::Rgba, vec![0u8; 16]).unwrap_err(),
        DecodeError::SizeMismatch
    );
}
