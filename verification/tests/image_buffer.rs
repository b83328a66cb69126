use image::DynamicImage;
use tesseract_plumbing::image_buffer::check_image_buffer;
use tesseract_plumbing::{Stage, TessBaseApi, TessBaseApiSetImageSafetyError};

#[test]
fn set_image_1_safety_test() {
    let mut tess = TessBaseApi::create();
    tess.init_2(0).unwrap();
    let img = DynamicImage::new_rgba8(5, 3);
    assert_eq!(
        tess.set_image(
            img.as_rgba8().unwrap(),
            img.width().try_into().unwrap(),
            img.height().try_into().unwrap(),
            4,
            (img.width() * 4).try_into().unwrap()
        ),
        Ok(())
    );
    assert_eq!(tess.set_image(&[0, 0, 0, 0], 2, 2, 1, 2), Ok(()));
    assert_eq!(
        tess.set_image(&[0, 0, 0], 2, 2, 1, 2),
        Err(TessBaseApiSetImageSafetyError::DimensionsExceedImageSize())
    );
    assert_eq!(
        tess.set_image(&[0, 0, 0, 0], 2, 2, 1, 1),
        Err(TessBaseApiSetImageSafetyError::ImageWidthExceedsBytesPerLine())
    );
    assert_eq!(tess.set_image(&[0, 0, 0, 0], 16, 2, 0, 2), Ok(()));
    assert_eq!(
        tess.set_image(&[0, 0, 0, 0], 17, 2, 0, 2),
        Err(TessBaseApiSetImageSafetyError::ImageWidthExceedsBytesPerLine())
    );
}

#[test]
fn four_byte_pixels_that_fill_the_buffer_are_accepted() {
    assert_eq!(check_image_buffer(16, 2, 2, 4, 8), Ok(()));
}

#[test]
fn claimed_size_over_the_buffer_is_size_exceeded() {
    assert_eq!(
        check_image_buffer(3, 2, 2, 1, 2),
        Err(TessBaseApiSetImageSafetyError::DimensionsExceedImageSize())
    );
}

#[test]
fn narrow_stride_is_width_exceeded_though_the_buffer_is_large_enough() {
    assert_eq!(
        check_image_buffer(4, 2, 2, 1, 1),
        Err(TessBaseApiSetImageSafetyError::ImageWidthExceedsBytesPerLine())
    );
}

#[test]
fn one_bit_pixels_fit_eight_to_the_byte() {
    assert_eq!(check_image_buffer(4, 16, 2, 0, 2), Ok(()));
}

#[test]
fn one_bit_pixels_one_over_the_row_are_width_exceeded() {
    assert_eq!(
        check_image_buffer(4, 17, 2, 0, 2),
        Err(TessBaseApiSetImageSafetyError::ImageWidthExceedsBytesPerLine())
    );
}

#[test]
fn negative_claimed_size_is_memory_exceeded() {
    assert_eq!(
        check_image_buffer(4, 2, -2, 1, 2),
        Err(TessBaseApiSetImageSafetyError::DimensionsExceedMemory())
    );
    assert_eq!(
        check_image_buffer(usize::MAX, 0, 1, 1, -1),
        Err(TessBaseApiSetImageSafetyError::DimensionsExceedMemory())
    );
}

#[test]
fn memory_is_tested_before_size_and_size_before_width() {
    // Negative size and a row that is too narrow: the size is named.
    assert_eq!(
        check_image_buffer(0, 100, -1, 4, 1),
        Err(TessBaseApiSetImageSafetyError::DimensionsExceedMemory())
    );
    // Buffer too small and a row that is too narrow: the buffer is named.
    assert_eq!(
        check_image_buffer(1, 100, 2, 4, 1),
        Err(TessBaseApiSetImageSafetyError::DimensionsExceedImageSize())
    );
}

#[test]
fn product_is_not_wrapped() {
    // 65536 * 65536 is zero in 32 bits. It must not pass for an empty image.
    assert!(check_image_buffer(0, 0, 65536, 1, 65536).is_err());
    assert!(check_image_buffer(16, 1, i32::MAX, 1, i32::MAX).is_err());
    // 65536 * 65537 is 65536 in 32 bits.
    assert!(check_image_buffer(65536, 1, 65536, 1, 65537).is_err());
    // The width times the pixel size is not wrapped either.
    assert_eq!(
        check_image_buffer(4, 65536, 1, 65536, 4),
        Err(TessBaseApiSetImageSafetyError::ImageWidthExceedsBytesPerLine())
    );
    // Nor the stride times eight.
    assert_eq!(check_image_buffer(0x2000_0000, 7, 1, 0, 0x2000_0000), Ok(()));
}

#[test]
fn claimed_size_equal_to_the_buffer_is_held() {
    assert_eq!(check_image_buffer(6, 3, 2, 1, 3), Ok(()));
    assert_eq!(
        check_image_buffer(5, 3, 2, 1, 3),
        Err(TessBaseApiSetImageSafetyError::DimensionsExceedImageSize())
    );
    assert_eq!(check_image_buffer(7, 3, 2, 1, 3), Ok(()));
}

#[test]
fn empty_geometry_fits_the_empty_buffer() {
    assert_eq!(check_image_buffer(0, 0, 0, 0, 0), Ok(()));
    assert_eq!(check_image_buffer(0, 0, 0, 4, 0), Ok(()));
    assert_eq!(
        check_image_buffer(0, 1, 0, 4, 0),
        Err(TessBaseApiSetImageSafetyError::ImageWidthExceedsBytesPerLine())
    );
}

#[test]
fn two_negative_factors_make_a_size_that_is_held() {
    // The product is what is tested, and the row test is made as written.
    assert_eq!(check_image_buffer(4, -3, -2, 1, -2), Ok(()));
    assert_eq!(
        check_image_buffer(4, -1, -2, 1, -2),
        Err(TessBaseApiSetImageSafetyError::ImageWidthExceedsBytesPerLine())
    );
}

#[test]
fn negative_pixel_size_is_tested_like_a_positive_one() {
    assert_eq!(
        check_image_buffer(2, -3, 1, -1, 2),
        Err(TessBaseApiSetImageSafetyError::ImageWidthExceedsBytesPerLine())
    );
    assert_eq!(check_image_buffer(2, 3, 1, -1, 2), Ok(()));
}

#[test]
fn set_image_gives_the_verdict_of_the_check() {
    let buffer = [0u8; 12];
    let cases: [(i32, i32, i32, i32); 6] = [
        (3, 1, 4, 12),
        (3, 2, 4, 12),
        (4, 1, 4, 12),
        (97, 1, 0, 12),
        (2, -1, 1, 2),
        (2, 3, 2, 4),
    ];
    for (width, height, bytes_per_pixel, bytes_per_line) in cases {
        let mut tess = TessBaseApi::create();
        assert_eq!(
            tess.set_image(&buffer, width, height, bytes_per_pixel, bytes_per_line),
            check_image_buffer(buffer.len(), width, height, bytes_per_pixel, bytes_per_line)
        );
    }
}

#[test]
fn refused_buffer_leaves_the_handle_where_it_was() {
    let mut tess = TessBaseApi::create();
    tess.init_2(0).unwrap();
    assert!(tess.set_image(&[0, 0, 0], 2, 2, 1, 2).is_err());
    assert_eq!(tess.stage(), Stage::Initialized);
    assert_eq!(tess.set_image(&[0, 0, 0, 0], 2, 2, 1, 2), Ok(()));
    assert_eq!(tess.stage(), Stage::ImageAssigned);
    assert!(tess.set_image(&[0, 0, 0, 0], 17, 2, 0, 2).is_err());
    assert_eq!(tess.stage(), Stage::ImageAssigned);
}

#[test]
fn safety_errors_in_words() {
    assert_eq!(
        TessBaseApiSetImageSafetyError::DimensionsExceedMemory().to_string(),
        "Image dimensions exceed computer memory"
    );
    assert_eq!(
        TessBaseApiSetImageSafetyError::DimensionsExceedImageSize().to_string(),
        "Image dimensions exceed image size"
    );
    assert_eq!(
        TessBaseApiSetImageSafetyError::ImageWidthExceedsBytesPerLine().to_string(),
        "Image width exceeds bytes per line"
    );
}
