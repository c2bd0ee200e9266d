use elevo_messenger::icon::{decode_icon, draw_badge, icon_size, tray_icon_png, GlyphBitmap};

fn png(w: u32, h: u32, px: [u8; 4]) -> Vec<u8> {
    let img = image::RgbaImage::from_pixel(w, h, image::Rgba(px));
    let mut buf = std::io::Cursor::new(Vec::new());
    img.write_to(&mut buf, image::ImageFormat::Png).unwrap();
    buf.into_inner()
}

#[test]
fn decode_reports_size() {
    let base = decode_icon(&png(4, 3, [1, 2, 3, 255])).ok().unwrap();
    assert_eq!(icon_size(&base), (4, 3));
}

#[test]
fn decode_failure_has_cause() {
    let e = decode_icon(b"definitely not an image").err().unwrap();
    assert!(e.starts_with("Failed to load base icon: "));
    assert!(e.len() > "Failed to load base icon: ".len());
}

#[test]
fn tray_image_without_badge_is_base() {
    let base = decode_icon(&png(4, 3, [10, 20, 30, 255])).ok().unwrap();
    let bytes = tray_icon_png(&base, None).ok().unwrap();
    let out = image::load_from_memory(&bytes).unwrap().to_rgba8();
    assert_eq!(out.dimensions(), (4, 3));
    assert_eq!(out.get_pixel(3, 2).0, [10, 20, 30, 255]);
}

#[test]
fn tray_image_with_badge_sits_after_gap() {
    let base = decode_icon(&png(4, 3, [10, 20, 30, 255])).ok().unwrap();
    let glyph = GlyphBitmap { x: 1, y: 0, width: 2, height: 2, coverage: vec![255, 0, 0, 255] };
    let badge = draw_badge(5, 3, &vec![glyph], (231, 29, 54));
    assert_eq!(icon_size(&badge), (5, 3));
    let bytes = tray_icon_png(&base, Some(&badge)).ok().unwrap();
    let out = image::load_from_memory(&bytes).unwrap().to_rgba8();
    assert_eq!(out.dimensions(), (4 + 12 + 5, 3));
    assert_eq!(out.get_pixel(0, 0).0, [10, 20, 30, 255]);
    assert_eq!(out.get_pixel(4, 0).0[3], 0);
    assert_eq!(out.get_pixel(16 + 1, 0).0, [231, 29, 54, 255]);
    assert_eq!(out.get_pixel(16 + 2, 1).0, [231, 29, 54, 255]);
    assert_eq!(out.get_pixel(16 + 2, 0).0[3], 0);
    assert_eq!(out.get_pixel(16, 0).0[3], 0);
}
