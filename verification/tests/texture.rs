use std::io::Cursor;

use image::{ImageFormat, RgbaImage};
use vox_core::render::texture::{decode_image, TextureError};

fn png_bytes(width: u32, height: u32, pixels: Vec<u8>) -> Vec<u8> {
    let img = RgbaImage::from_raw(width, height, pixels).unwrap();
    let mut out = Cursor::new(Vec::new());
    img.write_to(&mut out, ImageFormat::Png).unwrap();
    out.into_inner()
}

#[test]
fn decode_png_gives_rgba_pixels() {
    let pixels = vec![255, 0, 0, 255, 0, 255, 0, 128];
    let bytes = png_bytes(2, 1, pixels.clone());
    match decode_image(&bytes) {
        Ok(decoded) => {
            assert_eq!(decoded.width, 2);
            assert_eq!(decoded.height, 1);
            assert_eq!(decoded.rgba, pixels);
        }
        Err(_) => panic!("a valid PNG was refused"),
    }
}

#[test]
fn decode_refuses_non_image_bytes() {
    let bytes = b"not an image at all".to_vec();
    assert!(matches!(decode_image(&bytes), Err(TextureError::Decode(_))));
}

#[test]
fn decode_refuses_empty_input() {
    assert!(matches!(decode_image(&[]), Err(TextureError::Decode(_))));
}

#[test]
fn decoded_image_has_four_bytes_per_pixel() {
    let bytes = png_bytes(3, 2, vec![7; 24]);
    match decode_image(&bytes) {
        Ok(decoded) => assert!(decoded.rgba.len() >= 4 * 3 * 2),
        Err(_) => panic!("a valid PNG was refused"),
    }
}
