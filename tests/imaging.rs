use mojiman::imaging::{is_animated, ResizeError};
use mojiman::{make_repo_icons, resize};

fn sample_png(width: u32, height: u32) -> Vec<u8> {
    let img = image::DynamicImage::ImageRgba8(image::RgbaImage::new(width, height));
    let mut out = std::io::Cursor::new(Vec::new());
    img.write_to(&mut out, image::ImageFormat::Png).unwrap();
    out.into_inner()
}

#[test]
fn resize_fits_the_square() {
    let out = resize(&sample_png(96, 48), "png", 48).unwrap();
    let size = imagesize::blob_size(&out).unwrap();
    assert_eq!((size.width, size.height), (48, 24));
}

#[test]
fn resize_encodes_in_the_named_format() {
    let out = resize(&sample_png(10, 10), "jpg", 4).unwrap();
    assert_eq!(&out[..2], &[0xff, 0xd8]);
    let size = imagesize::blob_size(&out).unwrap();
    assert_eq!((size.width, size.height), (4, 4));
}

#[test]
fn resize_rejects_unknown_format_and_bad_data() {
    assert!(matches!(resize(&sample_png(4, 4), "xyz", 2), Err(ResizeError::UnsupportedFormat)));
    assert!(matches!(resize(&[1, 2, 3], "png", 2), Err(ResizeError::Undecodable(_))));
}

#[test]
fn animated_extensions() {
    assert!(is_animated("gif"));
    assert!(!is_animated("png"));
    assert!(!is_animated("GIF"));
}

#[test]
fn repo_icons_in_both_formats() {
    let icons = make_repo_icons(&sample_png(16, 16)).unwrap();
    assert_eq!(&icons.png[..4], &[0x89, b'P', b'N', b'G']);
    assert_eq!(&icons.ico[..4], &[0, 0, 1, 0]);
    assert!(matches!(make_repo_icons(&[0, 1, 2]), Err(ResizeError::Undecodable(_))));
}

#[test]
fn resize_rejects_undecodable_bytes_in_every_format() {
    for ext in ["png", "jpg", "gif"] {
        assert!(matches!(resize(&[0x89, b'P', b'N', b'G'], ext, 48), Err(ResizeError::Undecodable(_))));
    }
}

#[test]
fn repo_icons_keep_the_picture_size() {
    let icons = make_repo_icons(&sample_png(20, 10)).unwrap();
    let png = imagesize::blob_size(&icons.png).unwrap();
    assert_eq!((png.width, png.height), (20, 10));
    let ico = imagesize::blob_size(&icons.ico).unwrap();
    assert_eq!((ico.width, ico.height), (20, 10));
}
