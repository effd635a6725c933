use wallgallery::thumbs::{fit_dimensions, make_thumbnail, thumbnail_dims};

#[test]
fn a_landscape_source_is_width_bound() {
    assert_eq!(fit_dimensions(800, 600, 256, 256), (256, 192));
}

#[test]
fn a_portrait_source_is_height_bound() {
    assert_eq!(fit_dimensions(600, 800, 256, 256), (192, 256));
}

#[test]
fn a_square_source_fills_the_box() {
    assert_eq!(fit_dimensions(500, 500, 256, 256), (256, 256));
}

#[test]
fn an_extreme_aspect_ratio_keeps_one_pixel() {
    assert_eq!(fit_dimensions(1, 1000, 256, 256), (1, 256));
    assert_eq!(fit_dimensions(1000, 1, 256, 256), (256, 1));
}

#[test]
fn zero_dimensions_yield_no_thumbnail() {
    assert_eq!(thumbnail_dims(0, 600), None);
    assert_eq!(thumbnail_dims(800, 0), None);
    assert_eq!(thumbnail_dims(800, 600), Some((256, 192)));
}

#[test]
fn make_thumbnail_resamples_into_the_bounding_box() {
    let source = image::DynamicImage::new_rgb8(800, 600);
    let thumb = make_thumbnail(&source).expect("a decodable source yields a thumbnail");
    assert_eq!(thumb.width, 256);
    assert_eq!(thumb.height, 192);
    assert_eq!(thumb.image.width(), 256);
    assert_eq!(thumb.image.height(), 192);
}
