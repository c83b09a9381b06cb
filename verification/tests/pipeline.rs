use blurlock::buffer::PixelBuffer;
use blurlock::geometry::Geometry;
use blurlock::pipeline::{box_blur, downscale, render, upscale, BLUR_RADIUS};
use blurlock::resize::TransformError;

fn gaussian(image: &PixelBuffer, radius: u32) -> PixelBuffer {
    let rgb = image::RgbImage::from_raw(image.width(), image.height(), image.as_raw().clone())
        .expect("a pixel buffer holds three bytes per pixel");
    let soft = image::imageops::blur(&rgb, radius as f32);
    PixelBuffer::from_raw(soft.width(), soft.height(), soft.into_raw())
        .expect("the filter answers with three bytes per pixel")
}

fn speckled(width: u32, height: u32) -> PixelBuffer {
    let count = (width * height * 3) as usize;
    let bytes: Vec<u8> = (0..count).map(|i| (i * 91 % 256) as u8).collect();
    PixelBuffer::from_raw(width, height, bytes).unwrap()
}

#[test]
fn the_blur_radius_is_three() {
    assert_eq!(BLUR_RADIUS, 3);
}

#[test]
fn radius_zero_leaves_the_image_unchanged() {
    let image = speckled(5, 4);
    let bytes = image.as_raw().clone();
    let out = box_blur(image, 0, gaussian).unwrap();
    assert_eq!((out.width(), out.height()), (5, 4));
    assert_eq!(out.as_raw(), &bytes);
}

#[test]
fn radius_zero_does_not_ask_the_filter() {
    let image = speckled(3, 3);
    let bytes = image.as_raw().clone();
    let out = box_blur(image, 0, |_: &PixelBuffer, _: u32| -> PixelBuffer {
        panic!("the filter must not be asked")
    })
    .unwrap();
    assert_eq!(out.as_raw(), &bytes);
}

#[test]
fn an_image_without_pixels_is_not_filtered() {
    let image = PixelBuffer::from_raw(0, 4, Vec::new()).unwrap();
    let out = box_blur(image, 3, |_: &PixelBuffer, _: u32| -> PixelBuffer {
        panic!("the filter must not be asked")
    })
    .unwrap();
    assert!(out.is_empty());
    assert_eq!((out.width(), out.height()), (0, 4));
}

#[test]
fn the_filter_is_handed_the_image_and_the_radius() {
    let image = speckled(2, 2);
    let bytes = image.as_raw().clone();
    let out = box_blur(image, 3, |seen: &PixelBuffer, radius: u32| -> PixelBuffer {
        assert_eq!(radius, 3);
        assert_eq!(seen.as_raw(), &bytes);
        PixelBuffer::from_raw(2, 2, vec![42; 12]).unwrap()
    })
    .unwrap();
    assert_eq!(out.as_raw(), &vec![42; 12]);
}

#[test]
fn a_blur_keeps_the_dimensions() {
    let out = box_blur(speckled(9, 5), 3, gaussian).unwrap();
    assert_eq!((out.width(), out.height()), (9, 5));
    assert_eq!(out.as_raw().len(), 9 * 5 * 3);
}

#[test]
fn a_blur_softens_a_single_bright_pixel() {
    let mut bytes = vec![0u8; 9 * 9 * 3];
    let centre = (4 * 9 + 4) * 3;
    bytes[centre] = 255;
    bytes[centre + 1] = 255;
    bytes[centre + 2] = 255;
    let out = box_blur(PixelBuffer::from_raw(9, 9, bytes).unwrap(), 3, gaussian).unwrap();
    let middle = out.pixel(4, 4).unwrap();
    let beside = out.pixel(5, 4).unwrap();
    assert!(middle.red < 255);
    assert!(beside.red > 0);
}

#[test]
fn a_filter_that_changes_the_dimensions_is_refused() {
    let r = box_blur(speckled(4, 4), 3, |_: &PixelBuffer, _: u32| -> PixelBuffer {
        PixelBuffer::from_raw(4, 3, vec![0; 36]).unwrap()
    });
    assert_eq!(r.err(), Some(TransformError::DimensionsChanged));
    let transposed = box_blur(speckled(2, 8), 3, |_: &PixelBuffer, _: u32| -> PixelBuffer {
        PixelBuffer::from_raw(8, 2, vec![0; 48]).unwrap()
    });
    assert_eq!(transposed.err(), Some(TransformError::DimensionsChanged));
}

#[test]
fn downscale_goes_to_a_quarter_of_the_screen() {
    let source = speckled(16, 12);
    let small = downscale(&source, Geometry { width: 16, height: 12 }).unwrap();
    assert_eq!((small.width(), small.height()), (4, 3));
    let other = downscale(&source, Geometry { width: 1920, height: 1080 }).unwrap();
    assert_eq!((other.width(), other.height()), (480, 270));
    assert_eq!(other.as_raw().len(), 480 * 270 * 3);
}

#[test]
fn upscale_goes_to_the_screen() {
    let small = speckled(4, 3);
    let full = upscale(&small, Geometry { width: 17, height: 13 }).unwrap();
    assert_eq!((full.width(), full.height()), (17, 13));
    assert_eq!(full.as_raw().len(), 17 * 13 * 3);
}

#[test]
fn white_stays_white() {
    let source = PixelBuffer::from_raw(4, 4, vec![255; 48]).unwrap();
    let screen = Geometry { width: 4, height: 4 };
    let small = downscale(&source, screen).unwrap();
    assert_eq!((small.width(), small.height()), (1, 1));
    assert_eq!(small.as_raw(), &vec![255, 255, 255]);
    let frame = render(&source, screen, gaussian).unwrap();
    assert_eq!((frame.width(), frame.height()), (4, 4));
    assert_eq!(frame.as_raw().len(), 48);
    assert!(frame.as_raw().iter().all(|&sample| sample >= 254));
}

#[test]
fn black_stays_black() {
    let source = PixelBuffer::from_raw(8, 8, vec![0; 192]).unwrap();
    let frame = render(&source, Geometry { width: 8, height: 8 }, gaussian).unwrap();
    assert_eq!(frame.as_raw(), &vec![0; 192]);
}

#[test]
fn the_frame_fills_the_screen_whatever_the_source() {
    let screen = Geometry { width: 33, height: 21 };
    for (w, h) in [(33u32, 21u32), (4, 4), (100, 7), (1, 1), (64, 64)] {
        let frame = render(&speckled(w, h), screen, gaussian).unwrap();
        assert_eq!((frame.width(), frame.height()), (33, 21));
        assert_eq!(frame.as_raw().len(), 33 * 21 * 3);
    }
}

#[test]
fn a_screen_seven_wide_is_blurred_one_pixel_wide() {
    let screen = Geometry { width: 7, height: 7 };
    let source = speckled(7, 7);
    let frame = render(&source, screen, |image: &PixelBuffer, radius: u32| -> PixelBuffer {
        assert_eq!((image.width(), image.height()), (1, 1));
        gaussian(image, radius)
    })
    .unwrap();
    assert_eq!((frame.width(), frame.height()), (7, 7));
    assert_eq!(frame.as_raw().len(), 7 * 7 * 3);
}

#[test]
fn the_pipeline_blurs_with_radius_three_at_quarter_size() {
    let screen = Geometry { width: 40, height: 24 };
    let frame = render(&speckled(40, 24), screen, |image: &PixelBuffer, radius: u32| {
        assert_eq!(radius, 3);
        assert_eq!((image.width(), image.height()), (10, 6));
        PixelBuffer::from_raw(10, 6, vec![77; 180]).unwrap()
    })
    .unwrap();
    assert_eq!((frame.width(), frame.height()), (40, 24));
    assert_eq!(frame.as_raw(), &vec![77; 40 * 24 * 3]);
}

#[test]
fn a_screen_too_small_to_quarter_does_not_ask_the_filter() {
    let screen = Geometry { width: 3, height: 3 };
    let frame = render(&speckled(3, 3), screen, |_: &PixelBuffer, _: u32| -> PixelBuffer {
        panic!("there is nothing to blur")
    })
    .unwrap();
    assert_eq!((frame.width(), frame.height()), (3, 3));
    assert_eq!(frame.as_raw().len(), 27);
}

#[test]
fn a_misbehaving_filter_ends_the_pipeline() {
    let screen = Geometry { width: 8, height: 8 };
    let r = render(&speckled(8, 8), screen, |_: &PixelBuffer, _: u32| -> PixelBuffer {
        PixelBuffer::from_raw(3, 2, vec![0; 18]).unwrap()
    });
    assert_eq!(r.err(), Some(TransformError::DimensionsChanged));
}

#[test]
fn a_screen_beyond_the_machine_is_refused_before_any_work() {
    let screen = Geometry { width: u32::MAX, height: u32::MAX };
    let r = render(&speckled(2, 2), screen, |_: &PixelBuffer, _: u32| -> PixelBuffer {
        panic!("nothing is resized, so nothing is blurred")
    });
    assert_eq!(r.err(), Some(TransformError::TooLarge));
}
