//! Turning the contents of a picture file into the bytes that a texture
//! upload reads.
//!
//! Decoding is the `image` crate's work, and so are the flip and the colour
//! conversion used here. Verus does not look inside that crate: what this
//! module relies on is written down in the contracts of the small functions
//! marked `external_body`, and everything else is proved from them.

use image::DynamicImage;
use image::GenericImageView;
use image::ImageError;
use image::ImageFormat;
use vstd::prelude::*;

verus! {

/// The `image` crate's picture type. A value of it is opaque here: its size
/// and its pixels are spoken of through `image_dimensions` and
/// `image_raw_rgba8`.
#[verifier::external_type_specification]
#[verifier::external_body]
pub struct ExDynamicImage(image::DynamicImage);

/// The `image` crate's name for a file format. Opaque here.
#[verifier::external_type_specification]
#[verifier::external_body]
pub struct ExImageFormat(image::ImageFormat);

/// The `image` crate's error. Opaque here: any of them means that no picture
/// came out.
#[verifier::external_type_specification]
#[verifier::external_body]
pub struct ExImageError(image::ImageError);

/// The file format that a path's extension names, if it names one that the
/// `image` crate knows: what `ImageFormat::from_path` finds for the path. The
/// path is taken apart as the platform that the library is built for takes
/// paths apart, and the extension is compared without regard to case.
pub uninterp spec fn path_format(path: Seq<char>) -> Option<ImageFormat>;

/// The picture that `contents` hold when read as a file of the given format,
/// if they hold one: what `image::load_from_memory_with_format` decodes them
/// to. The decoder sees the bytes and the format and nothing else.
pub uninterp spec fn decoded_picture(contents: Seq<u8>, format: ImageFormat) -> Option<
    DynamicImage,
>;

/// The width and the height of a picture, in pixels: what
/// `GenericImageView::dimensions` reports for it.
pub uninterp spec fn image_dimensions(image: DynamicImage) -> (u32, u32);

/// The bytes of a picture's buffer once the picture is held as 8-bit RGBA:
/// what `DynamicImage::into_rgba8` followed by `ImageBuffer::into_raw` hands
/// out. Pixels are four bytes each and stand row after row from the top, so
/// the pixel in column `x` of row `y` starts at index `4 * (y * width + x)`.
pub uninterp spec fn image_raw_rgba8(image: DynamicImage) -> Seq<u8>;

/// Number of bytes that `width * height` RGBA pixels take.
pub open spec fn rgba8_len(width: u32, height: u32) -> int {
    4 * width * height
}

/// The first `height` rows of `bytes`, each `4 * width` bytes long, in reverse
/// order: the last row comes first. Within a row nothing moves.
pub open spec fn rows_reversed(bytes: Seq<u8>, width: u32, height: u32) -> Seq<u8> {
    Seq::new(
        rgba8_len(width, height) as nat,
        |i: int| bytes[(height - 1 - i / (4 * width)) * (4 * width) + i % (4 * width)],
    )
}

/// Whether the RGBA bytes of a picture of this size can be held in one `Vec`.
pub open spec fn fits_in_memory(width: u32, height: u32) -> bool {
    rgba8_len(width, height) <= isize::MAX
}

/// Width, height and upload bytes of a picture: the width and height as
/// signed 32-bit numbers, and the RGBA bytes with the bottom row first.
pub open spec fn cpu_image_of(image: DynamicImage) -> (i32, i32, Seq<u8>) {
    let size = image_dimensions(image);
    (size.0 as i32, size.1 as i32, rows_reversed(image_raw_rgba8(image), size.0, size.1))
}

/// Whether `data` holds exactly the bytes that an upload of `width` by
/// `height` RGBA pixels reads. A negative width or height asks for no upload,
/// and nothing is said of the data then.
pub open spec fn covers_upload(width: i32, height: i32, data: Seq<u8>) -> bool {
    width >= 0 && height >= 0 ==> data.len() == 4 * width * height
}

/// What loading the file at `path` with these `contents` comes to: the format
/// is that of the path's extension, the contents are decoded as that format,
/// and the picture, where its RGBA bytes fit in memory, gives the texture
/// data. Each step that fails has its own error.
pub open spec fn loaded_of(path: Seq<char>, contents: Seq<u8>) -> Result<
    (i32, i32, Seq<u8>),
    LoadError,
> {
    match path_format(path) {
        None => Err(LoadError::UnknownFormat),
        Some(format) => match decoded_picture(contents, format) {
            None => Err(LoadError::Undecodable),
            Some(image) => if fits_in_memory(image_dimensions(image).0, image_dimensions(image).1) {
                Ok(cpu_image_of(image))
            } else {
                Err(LoadError::TooLarge)
            },
        },
    }
}

/// Why the contents of a file gave no texture data.
#[derive(Clone, Copy, Debug, PartialEq, Eq)]
pub enum LoadError {
    /// The path's extension names no known picture format.
    UnknownFormat,
    /// The contents are not a picture of the format that the path names.
    Undecodable,
    /// The picture's RGBA bytes would not fit in memory.
    TooLarge,
}

/// Calls `ImageFormat::from_path`, which looks at nothing but the path's
/// extension and fails where it is missing or not one of the known ones.
/// What it finds is what `path_format` stands for.
#[verifier::external_body]
fn format_from_path(image_path: &str) -> (format: Result<ImageFormat, ImageError>)
    ensures
        format matches Ok(found) ==> path_format(image_path@) == Some(found),
        format is Err ==> path_format(image_path@) is None,
{
    ImageFormat::from_path(image_path)
}

/// Calls `image::load_from_memory_with_format`, which reads `contents`
/// through a cursor with the decoder of the given format, under the crate's
/// default limits, and hands every failure out as an error. Whether a picture
/// comes out, and which, is what `decoded_picture` stands for; nothing more is
/// claimed of it.
#[verifier::external_body]
fn load_from_memory_with_format(contents: &[u8], format: ImageFormat) -> (decoded: Result<
    DynamicImage,
    ImageError,
>)
    ensures
        decoded matches Ok(image) ==> decoded_picture(contents@, format) == Some(image),
        decoded is Err ==> decoded_picture(contents@, format) is None,
{
    image::load_from_memory_with_format(contents, format)
}

/// Calls `GenericImageView::dimensions` on a `DynamicImage`, which reads the
/// width and height stored with the picture's buffer.
#[verifier::external_body]
fn dimensions(image: &DynamicImage) -> (size: (u32, u32))
    ensures
        size == image_dimensions(*image),
{
    image.dimensions()
}

/// Calls `DynamicImage::flipv`. The crate builds a new picture of the same
/// size and pixel type, with a buffer of exactly that size, and copies the
/// pixel at `(x, y)` to `(x, height - 1 - y)`. The conversion to RGBA treats
/// every pixel alike, so the RGBA bytes of the new picture are the rows of
/// the old one's in reverse order.
#[verifier::external_body]
fn flipv(image: &DynamicImage) -> (flipped: DynamicImage)
    ensures
        image_dimensions(flipped) == image_dimensions(*image),
        image_raw_rgba8(flipped) == rows_reversed(
            image_raw_rgba8(*image),
            image_dimensions(*image).0,
            image_dimensions(*image).1,
        ),
{
    image.flipv()
}

/// Calls `DynamicImage::into_rgba8` and takes the buffer out of the result
/// with `ImageBuffer::into_raw`. A picture that is not RGBA already is
/// converted into a new buffer of `4 * width * height` bytes; reserving it
/// fails where that many bytes exceed what a `Vec` can hold, which the
/// `requires` excludes.
#[verifier::external_body]
fn into_rgba8(image: DynamicImage) -> (data: Vec<u8>)
    requires
        fits_in_memory(image_dimensions(image).0, image_dimensions(image).1),
    ensures
        data@ == image_raw_rgba8(image),
{
    image.into_rgba8().into_raw()
}

/// In the reversed rows, byte `c` of the pixel in column `x` of row `y` is byte
/// `c` of the pixel in the same column of row `height - 1 - y` of the bytes
/// that were given: rows trade places top to bottom, columns and channels stay.
pub proof fn rows_reversed_pixel(bytes: Seq<u8>, width: u32, height: u32, x: int, y: int, c: int)
    requires
        0 <= x < width,
        0 <= y < height,
        0 <= c < 4,
    ensures
        0 <= 4 * (y * width + x) + c < rows_reversed(bytes, width, height).len(),
        0 <= 4 * ((height - 1 - y) * width + x) + c < rgba8_len(width, height),
        rows_reversed(bytes, width, height)[4 * (y * width + x) + c] == bytes[4 * ((height - 1
            - y) * width + x) + c],
{
    let row: int = 4 * width;
    let i: int = 4 * (y * width + x) + c;
    let within: int = 4 * x + c;
    let source: int = height - 1 - y;
    assert(i == y * row + within) by (nonlinear_arith)
        requires
            row == 4 * width,
            i == 4 * (y * width + x) + c,
            within == 4 * x + c,
    ;
    assert(source * row + within == 4 * (source * width + x) + c) by (nonlinear_arith)
        requires
            row == 4 * width,
            within == 4 * x + c,
    ;
    assert(rgba8_len(width, height) == height * row) by (nonlinear_arith)
        requires
            row == 4 * width,
    ;
    assert(y * row + row <= height * row && source * row + row <= height * row && 0 <= y * row
        && 0 <= source * row) by (nonlinear_arith)
        requires
            0 <= y < height,
            source == height - 1 - y,
            0 < row,
    ;
    vstd::arithmetic::div_mod::lemma_fundamental_div_mod_converse(i, row, y, within);
}

/// The upload bytes of a picture are as many as an upload of its width and
/// height reads, whenever both came through as non-negative numbers.
pub proof fn cpu_image_covers_upload(image: DynamicImage)
    ensures
        covers_upload(cpu_image_of(image).0, cpu_image_of(image).1, cpu_image_of(image).2),
{
    let width: u32 = image_dimensions(image).0;
    let height: u32 = image_dimensions(image).1;
    assert((width as i32) >= 0i32 ==> (width as i32) == width) by (bit_vector);
    assert((height as i32) >= 0i32 ==> (height as i32) == height) by (bit_vector);
}

/// Reversing the rows twice puts every row back: what comes out is the
/// first `4 * width * height` bytes as they were given.
pub proof fn rows_reversed_twice(bytes: Seq<u8>, width: u32, height: u32)
    requires
        bytes.len() >= rgba8_len(width, height),
    ensures
        rows_reversed(rows_reversed(bytes, width, height), width, height) == bytes.subrange(
            0,
            rgba8_len(width, height),
        ),
{
    let once = rows_reversed(bytes, width, height);
    let twice = rows_reversed(once, width, height);
    let row: int = 4 * width;
    assert(rgba8_len(width, height) == height * row) by (nonlinear_arith)
        requires
            row == 4 * width,
    ;
    assert forall|i: int| 0 <= i < twice.len() implies twice[i] == bytes[i] by {
        assert(0 < row && 0 < height) by (nonlinear_arith)
            requires
                0 <= i < height * row,
                0 <= row,
                0 <= height,
        ;
        let y: int = i / row;
        let within: int = i % row;
        vstd::arithmetic::div_mod::lemma_fundamental_div_mod(i, row);
        vstd::arithmetic::div_mod::lemma_mod_pos_bound(i, row);
        assert(0 <= y < height) by (nonlinear_arith)
            requires
                i == row * y + within,
                0 <= within < row,
                0 <= i < height * row,
        ;
        let source: int = height - 1 - y;
        let j: int = source * row + within;
        assert(0 <= j < height * row) by (nonlinear_arith)
            requires
                j == source * row + within,
                0 <= source < height,
                0 <= within < row,
        ;
        vstd::arithmetic::div_mod::lemma_fundamental_div_mod_converse(j, row, source, within);
        assert(twice[i] == once[j]);
        assert(once[j] == bytes[(height - 1 - source) * row + within]);
        assert((height - 1 - source) * row + within == i) by (nonlinear_arith)
            requires
                height - 1 - source == y,
                i == row * y + within,
        ;
    }
    assert(twice =~= bytes.subrange(0, rgba8_len(width, height)));
}

/// Decides whether a picture of `width` by `height` pixels fits in memory as
/// RGBA bytes.
pub fn rgba8_fits(width: u32, height: u32) -> (fits: bool)
    ensures
        fits == fits_in_memory(width, height),
{
    let w: u64 = width as u64;
    let h: u64 = height as u64;
    assert(w * h <= 0xffff_ffff * 0xffff_ffff) by (nonlinear_arith)
        requires
            0 <= w <= 0xffff_ffff,
            0 <= h <= 0xffff_ffff,
    ;
    let area: u64 = w * h;
    assert(4 * width * height == 4 * (w * h)) by (nonlinear_arith)
        requires
            w == width,
            h == height,
    ;
    let limit: u64 = (isize::MAX as u64) / 4;
    area <= limit
}

/// Prepares a decoded picture for a texture upload.
///
/// Returns the picture's width, its height, and its pixels as 8-bit RGBA
/// bytes with the rows in reverse order, bottom row first: texture
/// coordinates count rows from the bottom, pictures from the top. Width and
/// height are handed out as the signed integers that the graphics interface
/// takes: up to `i32::MAX` the number is kept, above it only its low 32 bits
/// are, read as a signed number.
pub fn image_into_cpu(image: &DynamicImage) -> (result: (i32, i32, Vec<u8>))
    requires
        fits_in_memory(image_dimensions(*image).0, image_dimensions(*image).1),
    ensures
        (result.0, result.1, result.2@) == cpu_image_of(*image),
        image_dimensions(*image).0 <= i32::MAX ==> result.0 == image_dimensions(*image).0,
        image_dimensions(*image).1 <= i32::MAX ==> result.1 == image_dimensions(*image).1,
        result.2@.len() == rgba8_len(image_dimensions(*image).0, image_dimensions(*image).1),
        covers_upload(result.0, result.1, result.2@),
{
    proof {
        cpu_image_covers_upload(*image);
    }
    let flipped = flipv(image);
    let image_data = into_rgba8(flipped);
    let (width, height) = dimensions(image);
    assert(width <= 0x7fff_ffffu32 ==> (width as i32) == width) by (bit_vector);
    assert(height <= 0x7fff_ffffu32 ==> (height as i32) == height) by (bit_vector);
    (#[verifier::truncate] (width as i32), #[verifier::truncate] (height as i32), image_data)
}

/// Turns the outcome of decoding into texture data: a picture whose RGBA
/// bytes fit in memory is prepared for the upload, one whose bytes do not fit
/// is refused as too large, and a failure to decode is passed on.
pub fn decoded_into_cpu(decoded: Result<DynamicImage, ImageError>) -> (result: Result<
    (i32, i32, Vec<u8>),
    LoadError,
>)
    ensures
        match decoded {
            Ok(image) => if fits_in_memory(image_dimensions(image).0, image_dimensions(image).1) {
                result matches Ok(loaded) && (loaded.0, loaded.1, loaded.2@) == cpu_image_of(image)
                    && covers_upload(loaded.0, loaded.1, loaded.2@)
            } else {
                result == Err::<(i32, i32, Vec<u8>), LoadError>(LoadError::TooLarge)
            },
            Err(_) => result == Err::<(i32, i32, Vec<u8>), LoadError>(LoadError::Undecodable),
        },
{
    match decoded {
        Ok(image) => {
            let (width, height) = dimensions(&image);
            if rgba8_fits(width, height) {
                Ok(image_into_cpu(&image))
            } else {
                Err(LoadError::TooLarge)
            }
        },
        Err(_) => Err(LoadError::Undecodable),
    }
}

/// Decodes the contents of the picture file at `image_path` and prepares the
/// picture for a texture upload.
///
/// The format is taken from the extension of `image_path` alone, whatever the
/// contents look like. A path whose extension names no known format is
/// refused before the contents are looked at; contents that do not decode as
/// that format are refused as undecodable, and a picture whose RGBA bytes do
/// not fit in memory as too large. Otherwise what comes back is the texture
/// data of the decoded picture, which an upload of the width and height that
/// come with it can read in full.
pub fn load_image_into_cpu(image_path: &str, contents: &[u8]) -> (result: Result<
    (i32, i32, Vec<u8>),
    LoadError,
>)
    ensures
        match result {
            Ok(loaded) => loaded_of(image_path@, contents@) == Ok::<
                (i32, i32, Seq<u8>),
                LoadError,
            >((loaded.0, loaded.1, loaded.2@)),
            Err(error) => loaded_of(image_path@, contents@) == Err::<
                (i32, i32, Seq<u8>),
                LoadError,
            >(error),
        },
        result matches Ok(loaded) ==> covers_upload(loaded.0, loaded.1, loaded.2@),
{
    match format_from_path(image_path) {
        Ok(format) => decoded_into_cpu(load_from_memory_with_format(contents, format)),
        Err(_) => Err(LoadError::UnknownFormat),
    }
}

} // verus!
