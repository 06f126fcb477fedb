use raytracer::vulkan::icon::{load_icon_rgba, validate_icon};

fn png_bytes(width: u32, height: u32, pixel: [u8; 4]) -> Vec<u8> {
    let img = image::RgbaImage::from_pixel(width, height, image::Rgba(pixel));
    let mut bytes = Vec::new();
    image::DynamicImage::ImageRgba8(img)
        .write_to(&mut std::io::Cursor::new(&mut bytes), image::ImageOutputFormat::Png)
        .unwrap();
    bytes
}

#[test]
fn decodes_a_png_into_tightly_packed_rgba() {
    let bytes = png_bytes(2, 3, [10, 20, 30, 255]);
    let icon = load_icon_rgba(&bytes).unwrap();
    assert_eq!(icon.width, 2);
    assert_eq!(icon.height, 3);
    assert_eq!(icon.rgba.len(), 24);
    assert_eq!(&icon.rgba[0..4], &[10, 20, 30, 255]);
    assert_ne!(icon.rgba, bytes);
}

#[test]
fn rejects_bytes_that_are_no_image() {
    assert!(load_icon_rgba(&[0, 1, 2, 3, 4, 5, 6, 7]).is_none());
    assert!(load_icon_rgba(&[]).is_none());
}

#[test]
fn validation_demands_four_bytes_per_pixel() {
    let icon = validate_icon(vec![0; 16], 2, 2).unwrap();
    assert_eq!(icon.width, 2);
    assert_eq!(icon.height, 2);
    assert_eq!(icon.rgba, vec![0; 16]);
    assert!(validate_icon(vec![0; 15], 2, 2).is_none());
    assert!(validate_icon(vec![0; 17], 2, 2).is_none());
    assert!(validate_icon(Vec::new(), 1, 1).is_none());
    assert!(validate_icon(Vec::new(), 0, 0).is_some());
}
