use image_effects::Applied;
use image_effects::ImageEffect;
use image_effects::LumaRaster;
use image_effects::Raster;
use image_effects::apply_effect;
use image_effects::apply_grayscale;
use image_effects::apply_invert;
use image_effects::edge_map_to_rgb;

#[test]
fn grayscale_matches_the_image_crate() {
    let pixels: Vec<u8> = (0u32..48u32).map(|v| (v * 37 % 256) as u8).collect();
    let ours = apply_grayscale(&Raster::from_pixels(4, 4, pixels.clone()).expect("valid raster"));
    let buf = image::RgbImage::from_raw(4, 4, pixels).expect("valid buffer");
    let theirs = image::imageops::grayscale(&buf);
    assert_eq!(ours.pixels, theirs.into_raw());
}

#[test]
fn edge_detection_of_a_flat_image_is_all_light() {
    // A uniform image has no edges: the detector reports nothing and the
    // rendered edge map is pure white.
    let img = Raster::from_pixels(8, 8, vec![17u8; 8 * 8 * 3]).expect("valid raster");
    let luma = match apply_effect(&ImageEffect::EdgeDetect, &img) {
        Applied::NeedsCanny(l) => l,
        other => panic!("edge detection routed to {:?}", other),
    };
    let gray = image::GrayImage::from_raw(luma.width, luma.height, luma.pixels)
        .expect("valid buffer");
    let edges = imageproc::edges::canny(&gray, 25.0, 75.0);
    let (w, h) = (edges.width(), edges.height());
    let edge_map = LumaRaster::from_pixels(w, h, edges.into_raw()).expect("valid buffer");
    let rendered = edge_map_to_rgb(&edge_map);
    assert_eq!((rendered.width, rendered.height), (8, 8));
    assert!(rendered.pixels.iter().all(|&v| v == 255));
}

#[test]
fn blur_and_sharpen_completions_preserve_dimensions() {
    let pixels: Vec<u8> = (0u32..48u32).map(|v| (v * 53 % 256) as u8).collect();
    let img = Raster::from_pixels(4, 4, pixels.clone()).expect("valid raster");

    assert_eq!(apply_effect(&ImageEffect::Blur, &img), Applied::NeedsGaussianBlur);
    let buf = image::RgbImage::from_raw(img.width, img.height, img.pixels.clone())
        .expect("valid buffer");
    let blurred = imageproc::filter::gaussian_blur_f32(&buf, 2.0);
    assert_eq!((blurred.width(), blurred.height()), (4, 4));

    assert_eq!(apply_effect(&ImageEffect::Sharpen, &img), Applied::NeedsUnsharpen);
    let sharpened = image::DynamicImage::ImageRgb8(buf).unsharpen(1.0, 5);
    assert_eq!((sharpened.width(), sharpened.height()), (4, 4));
}

#[test]
fn inverted_image_survives_a_png_round_trip() {
    let pixels: Vec<u8> = (0u32..27u32).map(|v| (v * 11 % 256) as u8).collect();
    let img = Raster::from_pixels(3, 3, pixels).expect("valid raster");
    let inverted = apply_invert(&img);
    let buf = image::RgbImage::from_raw(inverted.width, inverted.height, inverted.pixels.clone())
        .expect("valid buffer");
    let mut encoded: Vec<u8> = Vec::new();
    buf.write_to(
        &mut std::io::Cursor::new(&mut encoded),
        image::ImageFormat::Png,
    )
    .expect("png encoding");
    let decoded = image::load_from_memory(&encoded).expect("png decoding").to_rgb8();
    assert_eq!(decoded.width(), 3);
    assert_eq!(decoded.height(), 3);
    assert_eq!(decoded.into_raw(), inverted.pixels);
}
