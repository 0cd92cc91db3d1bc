use femtophotos::paths::{extension_of, is_supported};

fn path(s: &str) -> Vec<u8> {
    s.as_bytes().to_vec()
}

#[test]
fn test_extension_of() {
    assert_eq!(extension_of(&path("./img/photo.PNG")), Some(path("PNG")));
    assert_eq!(extension_of(&path("a.jpg")), Some(path("jpg")));
    assert_eq!(extension_of(&path("archive.tar.gz")), Some(path("gz")));
    assert_eq!(extension_of(&path("no_extension")), None);
    assert_eq!(extension_of(&path("dir.with.dots/plain")), None);
    // A lone leading dot names a hidden file, not an extension.
    assert_eq!(extension_of(&path(".hidden")), None);
    assert_eq!(extension_of(&path("trailing.")), Some(path("")));
    assert_eq!(extension_of(&path("")), None);
}

#[test]
fn test_is_supported() {
    assert!(is_supported(&path("a.png")));
    assert!(is_supported(&path("b.JPG")));
    assert!(is_supported(&path("c.qoi")));
    assert!(is_supported(&path("d.Ico")));
    assert!(is_supported(&path("e.jfif")));
    assert!(!is_supported(&path("f.txt")));
    assert!(!is_supported(&path("g.jpeg")));
    assert!(!is_supported(&path("h")));
    assert!(!is_supported(&path(".png")));
}
