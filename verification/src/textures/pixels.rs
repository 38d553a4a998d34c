//! Decoded pixel data and the calls into the `image` crate that produce it.

use std::path::PathBuf;
use vstd::arithmetic::div_mod::{
    lemma_fundamental_div_mod, lemma_fundamental_div_mod_converse, lemma_multiply_divide_lt,
};
use vstd::prelude::*;

verus! {

#[verifier::external_type_specification]
#[verifier::external_body]
pub struct ExImageError(image::ImageError);

#[verifier::external_type_specification]
#[verifier::external_body]
pub struct ExImageFormat(image::ImageFormat);

/// Number of bytes in a tightly packed RGBA image of the given dimensions.
pub open spec fn rgba_len(width: u32, height: u32) -> nat {
    (4 * width * height) as nat
}

/// Index of the byte that lands at position `i` when the rows of a tightly
/// packed RGBA image are written out bottom row first.
pub open spec fn flipped_index(i: int, width: u32, height: u32) -> int {
    (height - 1 - i / (4 * width)) * (4 * width) + i % (4 * width)
}

/// The rows of a tightly packed RGBA image in reverse order: row `y` of the
/// result is row `height - 1 - y` of `data`.
pub open spec fn flipped_rows(data: Seq<u8>, width: u32, height: u32) -> Seq<u8> {
    Seq::new(data.len(), |i: int| data[flipped_index(i, width, height)])
}

/// Byte `x` of row `y` of an image lands at byte `x` of row `height - 1 - y`
/// when its rows are flipped, and that position is inside the image.
pub proof fn lemma_flipped_index(x: int, y: int, width: u32, height: u32)
    requires
        0 <= x < 4 * width,
        0 <= y < height,
    ensures
        0 <= y * (4 * width) + x < 4 * width * height,
        flipped_index(y * (4 * width) + x, width, height) == (height - 1 - y) * (4 * width) + x,
{
    let row = 4 * width;
    let i = y * row + x;
    lemma_fundamental_div_mod_converse(i, row, y, x);
    assert(y * row + x < row * height) by (nonlinear_arith)
        requires
            0 <= x < row,
            0 <= y < height,
    ;
    assert(0 <= y * row) by (nonlinear_arith)
        requires
            0 <= y,
            0 <= row,
    ;
    assert(4 * width * height == row * height) by (nonlinear_arith)
        requires
            row == 4 * width,
    ;
}

/// Every position of an image is byte `x` of some row `y`.
pub proof fn lemma_row_of_index(i: int, width: u32, height: u32) -> (at: (int, int))
    requires
        0 <= i < 4 * width * height,
    ensures
        0 <= at.0 < 4 * width,
        0 <= at.1 < height,
        i == at.1 * (4 * width) + at.0,
{
    let row = 4 * width;
    assert(row > 0 && i < row * height) by (nonlinear_arith)
        requires
            0 <= i < 4 * width * height,
            row == 4 * width,
            0 <= height,
            0 <= width,
    ;
    lemma_fundamental_div_mod(i, row);
    lemma_multiply_divide_lt(i, row, height as int);
    assert(row * (i / row) == (i / row) * row) by (nonlinear_arith);
    (i % row, i / row)
}

/// Row `y` of a flipped image is row `height - 1 - y` of the image.
pub proof fn lemma_flipped_row(data: Seq<u8>, x: int, y: int, width: u32, height: u32)
    requires
        data.len() == rgba_len(width, height),
        0 <= x < 4 * width,
        0 <= y < height,
    ensures
        flipped_rows(data, width, height)[y * (4 * width) + x] == data[(height - 1 - y) * (4
            * width) + x],
{
    lemma_flipped_index(x, y, width, height);
}

/// Flipping the rows of an image twice gives the image back.
pub proof fn lemma_flip_twice(data: Seq<u8>, width: u32, height: u32)
    requires
        data.len() == rgba_len(width, height),
    ensures
        flipped_rows(flipped_rows(data, width, height), width, height) == data,
{
    let once = flipped_rows(data, width, height);
    let twice = flipped_rows(once, width, height);
    assert forall|i: int| 0 <= i < data.len() implies twice[i] == data[i] by {
        let (x, y) = lemma_row_of_index(i, width, height);
        lemma_flipped_index(x, y, width, height);
        lemma_flipped_index(x, height - 1 - y, width, height);
    }
    assert(twice =~= data);
}

/// The image format that `image::ImageFormat::from_path` takes from the
/// extension of a path, `None` where the extension is missing or unknown.
pub uninterp spec fn path_format(path: PathBuf) -> Option<image::ImageFormat>;

/// What the bytes of an encoded image decode to under a format: the width,
/// the height and the RGBA samples, top row first, as
/// `image::load_from_memory_with_format` followed by
/// `image::DynamicImage::to_rgba8` give them; `None` where decoding fails.
pub uninterp spec fn decoded_rgba8(format: image::ImageFormat, bytes: Seq<u8>) -> Option<
    (u32, u32, Seq<u8>),
>;

/// Calls `image::ImageFormat::from_path`, which reads nothing from disk: it
/// looks at the extension of `path` alone. Its answer is given the name
/// `path_format`; which format an extension stands for is not claimed.
#[verifier::external_body]
pub(crate) fn format_from_path(path: &PathBuf) -> (r: Result<image::ImageFormat, image::ImageError>)
    ensures
        r is Ok <==> path_format(*path) is Some,
        r matches Ok(format) ==> path_format(*path) == Some(format),
{
    image::ImageFormat::from_path(path)
}

/// Calls `image::load_from_memory_with_format` on the encoded bytes and
/// `image::DynamicImage::to_rgba8` on the image, and takes the resulting
/// buffer apart into width, height and raw bytes. The outcome depends on the
/// format and the bytes alone and is given the name `decoded_rgba8`. Beyond
/// that, only this is claimed: an `ImageBuffer` never holds fewer samples than
/// its dimensions need (it may hold more).
#[verifier::external_body]
pub(crate) fn decode_rgba8(bytes: &[u8], format: image::ImageFormat) -> (r: Result<
    (u32, u32, Vec<u8>),
    image::ImageError,
>)
    ensures
        r is Ok <==> decoded_rgba8(format, bytes@) is Some,
        r matches Ok(v) ==> decoded_rgba8(format, bytes@) == Some((v.0, v.1, v.2@))
            && v.2@.len() >= rgba_len(v.0, v.1),
{
    let rgba = image::load_from_memory_with_format(bytes, format)?.to_rgba8();
    Ok((rgba.width(), rgba.height(), rgba.into_raw()))
}

/// Calls `image::imageops::flip_vertical` on an RGBA buffer made from `data`.
/// That function copies pixel `(x, y)` to `(x, height - 1 - y)` of a fresh
/// buffer of the same dimensions, which `flipped_rows` states byte by byte.
/// With fewer bytes than the dimensions need no buffer can be made, and with
/// no rows the length of a row need not fit in memory: the length is required,
/// and at least one row.
#[verifier::external_body]
pub(crate) fn flip_vertical(width: u32, height: u32, data: Vec<u8>) -> (r: Vec<u8>)
    requires
        height > 0,
        data@.len() == rgba_len(width, height),
    ensures
        r@ == flipped_rows(data@, width, height),
{
    let source = image::RgbaImage::from_raw(width, height, data).unwrap();
    image::imageops::flip_vertical(&source).into_raw()
}

} // verus!
