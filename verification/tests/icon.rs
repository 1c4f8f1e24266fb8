use luma_translate::icon::{decode_icon_bgra, icon_from_frame, rgba_to_premultiplied_bgra, FrameInfo};

fn encode_png(width: u32, height: u32, color: png::ColorType, pixels: &[u8]) -> Vec<u8> {
    let mut out = Vec::new();
    {
        let mut encoder = png::Encoder::new(&mut out, width, height);
        encoder.set_color(color);
        encoder.set_depth(png::BitDepth::Eight);
        let mut writer = encoder.write_header().unwrap();
        writer.write_image_data(pixels).unwrap();
    }
    out
}

#[test]
fn premultiplies_into_bgra() {
    assert_eq!(rgba_to_premultiplied_bgra(&[255, 128, 0, 255]), vec![0, 128, 255, 255]);
    assert_eq!(rgba_to_premultiplied_bgra(&[255, 128, 10, 0]), vec![0, 0, 0, 0]);
    assert_eq!(rgba_to_premultiplied_bgra(&[200, 100, 50, 128]), vec![25, 50, 100, 128]);
    assert_eq!(rgba_to_premultiplied_bgra(&[1, 2, 3, 4, 9]), rgba_to_premultiplied_bgra(&[1, 2, 3, 4]));
}

#[test]
fn decodes_the_button_image() {
    let mut pixels = Vec::new();
    for i in 0..42 * 42 {
        pixels.extend_from_slice(&[(i % 256) as u8, 100, 200, 128]);
    }
    let bytes = encode_png(42, 42, png::ColorType::Rgba, &pixels);
    let bgra = decode_icon_bgra(&bytes).unwrap();
    assert_eq!(bgra, rgba_to_premultiplied_bgra(&pixels));
    assert_eq!(bgra.len(), 42 * 42 * 4);
}

#[test]
fn rejects_other_images() {
    let bytes = encode_png(2, 2, png::ColorType::Rgba, &[0; 16]);
    assert_eq!(decode_icon_bgra(&bytes).unwrap_err(), "translate button asset must be a 42x42 RGBA8 PNG");
    let bytes = encode_png(42, 42, png::ColorType::Rgb, &[0; 42 * 42 * 3]);
    assert!(decode_icon_bgra(&bytes).is_err());
    assert!(decode_icon_bgra(b"not a png").is_err());
}

#[test]
fn short_frames_are_rejected() {
    let info = FrameInfo { width: 42, height: 42, color_type: 6, bit_depth: 8, line_size: 168 };
    assert_eq!(icon_from_frame(&info, &[0; 100]).unwrap_err(), "decoded frame exceeds its buffer");
    assert_eq!(icon_from_frame(&info, &vec![0; 7056]).unwrap().len(), 7056);
}

#[test]
fn premultiplied_channels_never_exceed_alpha() {
    let mut rgba = Vec::new();
    for c in (0..=255u16).step_by(15) {
        for a in (0..=255u16).step_by(17) {
            rgba.extend_from_slice(&[c as u8, 255 - c as u8, 200, a as u8]);
        }
    }
    let bgra = rgba_to_premultiplied_bgra(&rgba);
    for px in bgra.chunks(4) {
        assert!(px[0] <= px[3] && px[1] <= px[3] && px[2] <= px[3]);
    }
}
