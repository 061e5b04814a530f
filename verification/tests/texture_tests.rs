use std::io::Cursor;

use strwb::graphics::texture::{TextureData, TextureError};

fn png_bytes(width: u32, height: u32) -> Vec<u8> {
    let img = image::RgbaImage::from_fn(width, height, |x, y| image::Rgba([x as u8, y as u8, 7, 200]));
    let mut out = Cursor::new(Vec::new());
    img.write_to(&mut out, image::ImageFormat::Png).unwrap();
    out.into_inner()
}

#[test]
fn from_bytes_decodes_a_png_to_rgba() {
    let t = TextureData::from_bytes(&png_bytes(3, 2)).unwrap();
    assert_eq!((t.width(), t.height()), (3, 2));
    assert_eq!(t.pixels().len(), 24);
    assert_eq!(&t.pixels()[..8], &[0, 0, 7, 200, 1, 0, 7, 200]);
    assert_eq!(&t.pixels()[12..16], &[0, 1, 7, 200]);
}

#[test]
fn from_bytes_refuses_bytes_that_are_no_image() {
    match TextureData::from_bytes(&[1, 2, 3, 4, 5]) {
        Err(TextureError::Decode(_)) => {}
        Ok(_) => panic!("garbage decoded"),
    }
}

#[test]
fn from_null_is_one_white_texel() {
    let t = TextureData::from_null();
    assert_eq!((t.width(), t.height()), (1, 1));
    assert_eq!(t.pixels(), &vec![255, 255, 255, 255]);
    assert_eq!(t.copy_layout(), Some((4, 1)));
}

#[test]
fn copy_layout_rows_are_four_bytes_per_texel() {
    let t = TextureData::from_bytes(&png_bytes(64, 48)).unwrap();
    assert_eq!(t.copy_layout(), Some((256, 48)));
    assert_eq!(t.pixels().len(), 256 * 48);
}
