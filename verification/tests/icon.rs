use chat_bridge::icon::{IconBitmap, FALLBACK_SIZE};
use std::io::Cursor;

fn png_of(image: image::DynamicImage) -> Vec<u8> {
    let mut bytes = Vec::new();
    image.write_to(&mut Cursor::new(&mut bytes), image::ImageFormat::Png).expect("png written");
    bytes
}

#[test]
fn fallback_is_a_solid_purple_square() {
    let icon = IconBitmap::fallback();
    assert_eq!(FALLBACK_SIZE, 32);
    assert_eq!(icon.width, 32);
    assert_eq!(icon.height, 32);
    assert_eq!(icon.rgba.len(), 32 * 32 * 4);
    for pixel in icon.rgba.chunks(4) {
        assert_eq!(pixel, &[147u8, 51, 255, 200][..]);
    }
}

#[test]
fn missing_file_gives_the_fallback() {
    let icon = IconBitmap::select(None);
    assert_eq!((icon.width, icon.height), (32, 32));
    assert_eq!(icon.rgba, IconBitmap::fallback().rgba);
}

#[test]
fn undecodable_file_gives_the_fallback() {
    for bytes in [&b""[..], &b"not a png"[..], &[0x89, b'P', b'N', b'G', 0x0d, 0x0a, 0x1a, 0x0a][..]] {
        let icon = IconBitmap::select(Some(bytes));
        assert_eq!((icon.width, icon.height), (32, 32));
        assert_eq!(icon.rgba, IconBitmap::fallback().rgba);
    }
}

#[test]
fn packaged_png_is_decoded_to_rgba() {
    let mut img = image::RgbaImage::new(2, 1);
    img.put_pixel(0, 0, image::Rgba([1, 2, 3, 4]));
    img.put_pixel(1, 0, image::Rgba([250, 251, 252, 253]));
    let bytes = png_of(image::DynamicImage::ImageRgba8(img));
    let icon = IconBitmap::select(Some(&bytes));
    assert_eq!((icon.width, icon.height), (2, 1));
    assert_eq!(icon.rgba, vec![1, 2, 3, 4, 250, 251, 252, 253]);
}

#[test]
fn grayscale_png_is_converted_to_rgba() {
    let mut img = image::GrayImage::new(1, 2);
    img.put_pixel(0, 0, image::Luma([10]));
    img.put_pixel(0, 1, image::Luma([200]));
    let bytes = png_of(image::DynamicImage::ImageLuma8(img));
    let icon = IconBitmap::select(Some(&bytes));
    assert_eq!((icon.width, icon.height), (1, 2));
    assert_eq!(icon.rgba, vec![10, 10, 10, 255, 200, 200, 200, 255]);
}

#[test]
fn buffer_must_fit_the_dimensions() {
    assert!(IconBitmap::from_rgba(vec![0; 16], 2, 2).is_some());
    assert!(IconBitmap::from_rgba(Vec::new(), 0, 0).is_some());
    assert!(IconBitmap::from_rgba(Vec::new(), 0, 7).is_some());
    assert!(IconBitmap::from_rgba(vec![0; 15], 2, 2).is_none());
    assert!(IconBitmap::from_rgba(vec![0; 16], 2, 3).is_none());
    assert!(IconBitmap::from_rgba(vec![0; 17], 2, 2).is_none());
    assert!(IconBitmap::from_rgba(vec![0; 4], 65536, 65536).is_none());
    let icon = IconBitmap::from_rgba(vec![9, 8, 7, 6], 1, 1).expect("a bitmap");
    assert_eq!((icon.rgba, icon.width, icon.height), (vec![9, 8, 7, 6], 1, 1));
}

#[test]
fn decoded_image_with_a_misfit_buffer_gives_the_fallback() {
    let icon = IconBitmap::from_decoded(Some((vec![0; 5], 1, 1)));
    assert_eq!(icon.rgba, IconBitmap::fallback().rgba);
    let icon = IconBitmap::from_decoded(None);
    assert_eq!((icon.width, icon.height), (32, 32));
    let icon = IconBitmap::from_decoded(Some((vec![5, 6, 7, 8], 1, 1)));
    assert_eq!((icon.rgba, icon.width, icon.height), (vec![5, 6, 7, 8], 1, 1));
}
