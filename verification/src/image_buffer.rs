//! Bounds check of a caller's pixel buffer against the geometry it claims.
//!
//! The engine reads `height` rows of `bytes_per_line` bytes from the pointer
//! it is given and checks nothing. The check here runs first.

use crate::error::TessBaseApiSetImageSafetyError;
use vstd::prelude::*;

verus! {

/// The number of bytes that the engine will read: one stride for each row.
pub open spec fn claimed_size(height: int, bytes_per_line: int) -> int {
    height * bytes_per_line
}

/// Whether the claimed size is a value that a buffer length can take.
pub open spec fn size_is_representable(height: int, bytes_per_line: int) -> bool {
    0 <= claimed_size(height, bytes_per_line) <= usize::MAX
}

/// Whether a row of `bytes_per_line` bytes holds `width` pixels. A pixel size
/// of zero stands for one bit per pixel, eight pixels to the byte.
pub open spec fn row_holds_width(width: int, bytes_per_pixel: int, bytes_per_line: int) -> bool {
    if bytes_per_pixel == 0 {
        width <= bytes_per_line * 8
    } else {
        width * bytes_per_pixel <= bytes_per_line
    }
}

/// The verdict on a buffer of `buffer_length` bytes that is claimed to hold
/// `height` rows of `bytes_per_line` bytes, each of `width` pixels of
/// `bytes_per_pixel` bytes. The three tests run in a fixed order, so that
/// each failure names the first thing that is wrong.
pub open spec fn image_buffer_verdict(
    buffer_length: int,
    width: int,
    height: int,
    bytes_per_pixel: int,
    bytes_per_line: int,
) -> Result<(), TessBaseApiSetImageSafetyError> {
    if !size_is_representable(height, bytes_per_line) {
        Err(TessBaseApiSetImageSafetyError::DimensionsExceedMemory())
    } else if claimed_size(height, bytes_per_line) > buffer_length {
        Err(TessBaseApiSetImageSafetyError::DimensionsExceedImageSize())
    } else if !row_holds_width(width, bytes_per_pixel, bytes_per_line) {
        Err(TessBaseApiSetImageSafetyError::ImageWidthExceedsBytesPerLine())
    } else {
        Ok(())
    }
}

/// Decides whether a buffer of `buffer_length` bytes may be handed to the
/// engine with the given geometry. The products are taken in 64 bits, where
/// two 32-bit factors cannot wrap.
pub fn check_image_buffer(
    buffer_length: usize,
    width: i32,
    height: i32,
    bytes_per_pixel: i32,
    bytes_per_line: i32,
) -> (verdict: Result<(), TessBaseApiSetImageSafetyError>)
    ensures
        verdict == image_buffer_verdict(
            buffer_length as int,
            width as int,
            height as int,
            bytes_per_pixel as int,
            bytes_per_line as int,
        ),
{
    proof {
        lemma_product_fits_i64(height, bytes_per_line);
        lemma_product_fits_i64(width, bytes_per_pixel);
    }
    let claimed: i64 = (height as i64) * (bytes_per_line as i64);
    let claimed_image_size: usize = match usize::try_from(claimed) {
        Ok(size) => size,
        Err(_) => {
            return Err(TessBaseApiSetImageSafetyError::DimensionsExceedMemory());
        },
    };
    if claimed_image_size > buffer_length {
        return Err(TessBaseApiSetImageSafetyError::DimensionsExceedImageSize());
    }
    let row_fits = if bytes_per_pixel == 0 {
        (width as i64) <= (bytes_per_line as i64) * 8
    } else {
        (width as i64) * (bytes_per_pixel as i64) <= (bytes_per_line as i64)
    };
    if !row_fits {
        return Err(TessBaseApiSetImageSafetyError::ImageWidthExceedsBytesPerLine());
    }
    Ok(())
}

proof fn lemma_product_fits_i64(a: i32, b: i32)
    ensures
        i64::MIN <= a * b <= i64::MAX,
{
    assert(-0x4000_0000_0000_0000 <= a * b <= 0x4000_0000_0000_0000) by (nonlinear_arith)
        requires
            -0x8000_0000 <= a <= 0x7fff_ffff,
            -0x8000_0000 <= b <= 0x7fff_ffff,
    ;
}

/// A buffer is accepted exactly when the claimed size is representable and
/// no more than the buffer holds, and a row holds the width: at one bit per
/// pixel where the pixel size is zero, at `bytes_per_pixel` bytes per pixel
/// where it is positive. A claimed size that is not representable is
/// rejected whatever else holds.
pub proof fn lemma_accepted_iff_region_fits(
    buffer_length: int,
    width: int,
    height: int,
    bytes_per_pixel: int,
    bytes_per_line: int,
)
    requires
        bytes_per_pixel >= 0,
    ensures
        image_buffer_verdict(buffer_length, width, height, bytes_per_pixel, bytes_per_line) is Ok
            <==> {
            &&& 0 <= height * bytes_per_line <= usize::MAX
            &&& height * bytes_per_line <= buffer_length
            &&& bytes_per_pixel == 0 ==> width <= bytes_per_line * 8
            &&& bytes_per_pixel > 0 ==> width * bytes_per_pixel <= bytes_per_line
        },
        !(0 <= height * bytes_per_line <= usize::MAX) ==> image_buffer_verdict(
            buffer_length,
            width,
            height,
            bytes_per_pixel,
            bytes_per_line,
        ) is Err,
{
}

/// Each failure has one cause, and the causes are tried in order: first the
/// size that cannot be represented, then the size that the buffer does not
/// hold, then the row that is too narrow. A buffer that is large enough can
/// still fail on its rows, and the caller can tell the two apart.
pub proof fn lemma_failure_names_first_cause(
    buffer_length: int,
    width: int,
    height: int,
    bytes_per_pixel: int,
    bytes_per_line: int,
)
    ensures
        ({
            let verdict = image_buffer_verdict(
                buffer_length,
                width,
                height,
                bytes_per_pixel,
                bytes_per_line,
            );
            let representable = size_is_representable(height, bytes_per_line);
            let held = claimed_size(height, bytes_per_line) <= buffer_length;
            let row = row_holds_width(width, bytes_per_pixel, bytes_per_line);
            &&& verdict == Err::<(), _>(TessBaseApiSetImageSafetyError::DimensionsExceedMemory())
                <==> !representable
            &&& verdict == Err::<(), _>(TessBaseApiSetImageSafetyError::DimensionsExceedImageSize())
                <==> representable && !held
            &&& verdict == Err::<(), _>(
                TessBaseApiSetImageSafetyError::ImageWidthExceedsBytesPerLine(),
            ) <==> representable && held && !row
        }),
{
}

/// Where a buffer is accepted for pixels of one byte or more, every byte of
/// every pixel lies inside the buffer: byte `byte` of the pixel in column
/// `column` of row `row` stands at an offset below the buffer's length.
pub proof fn lemma_accepted_pixel_lies_in_buffer(
    buffer_length: int,
    width: int,
    height: int,
    bytes_per_pixel: int,
    bytes_per_line: int,
    row: int,
    column: int,
    byte: int,
)
    requires
        image_buffer_verdict(buffer_length, width, height, bytes_per_pixel, bytes_per_line) is Ok,
        bytes_per_pixel > 0,
        0 <= row < height,
        0 <= column < width,
        0 <= byte < bytes_per_pixel,
    ensures
        0 <= row * bytes_per_line + column * bytes_per_pixel + byte < buffer_length,
{
    let in_row = column * bytes_per_pixel + byte;
    assert(0 <= in_row < width * bytes_per_pixel) by (nonlinear_arith)
        requires
            in_row == column * bytes_per_pixel + byte,
            0 <= column < width,
            0 <= byte < bytes_per_pixel,
    ;
    assert(0 <= row * bytes_per_line && row * bytes_per_line + bytes_per_line <= height
        * bytes_per_line) by (nonlinear_arith)
        requires
            0 <= row < height,
            0 <= bytes_per_line,
    ;
}

/// Where a buffer is accepted for pixels of one bit, the byte that holds any
/// pixel lies inside the buffer: the pixel in column `column` of row `row`
/// is a bit of the byte at offset `row * bytes_per_line + column / 8`.
pub proof fn lemma_accepted_bit_lies_in_buffer(
    buffer_length: int,
    width: int,
    height: int,
    bytes_per_line: int,
    row: int,
    column: int,
)
    requires
        image_buffer_verdict(buffer_length, width, height, 0, bytes_per_line) is Ok,
        0 <= row < height,
        0 <= column < width,
    ensures
        0 <= row * bytes_per_line + column / 8 < buffer_length,
{
    assert(0 <= column / 8 < bytes_per_line);
    assert(0 <= row * bytes_per_line && row * bytes_per_line + bytes_per_line <= height
        * bytes_per_line) by (nonlinear_arith)
        requires
            0 <= row < height,
            0 <= bytes_per_line,
    ;
}

/// The verdict looks at the length of the buffer and at nothing in it, and a
/// buffer that is accepted stays accepted when it grows.
pub proof fn lemma_longer_buffer_is_accepted(
    shorter: int,
    longer: int,
    width: int,
    height: int,
    bytes_per_pixel: int,
    bytes_per_line: int,
)
    requires
        shorter <= longer,
        image_buffer_verdict(shorter, width, height, bytes_per_pixel, bytes_per_line) is Ok,
    ensures
        image_buffer_verdict(longer, width, height, bytes_per_pixel, bytes_per_line) is Ok,
{
}

} // verus!
