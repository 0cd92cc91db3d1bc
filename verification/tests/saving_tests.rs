use femtophotos::image_saving::{flatten, RGBAImageData};

#[test]
fn test_flatten_preserves_channel_order() {
    let data = vec![(1u8, 2u8, 3u8, 4u8), (5u8, 6u8, 7u8, 8u8), (9u8, 10u8, 11u8, 12u8)];
    let flat = flatten(data);
    assert_eq!(flat, vec![1, 2, 3, 4, 5, 6, 7, 8, 9, 10, 11, 12]);
}

#[test]
fn test_flatten_empty() {
    let flat = flatten(Vec::new());
    assert!(flat.is_empty());
}

#[test]
fn test_from_raw_keeps_fields() {
    let data = vec![(0u8, 0u8, 0u8, 255u8); 6];
    let img = RGBAImageData::from_raw(data.clone(), 3, 2);
    assert_eq!(img.width, 3);
    assert_eq!(img.height, 2);
    assert_eq!(img.data, data);
    assert_eq!(flatten(img.data).len(), 24);
}
