//! Decoding and encoding of image files, done by the `image` crate, and
//! the choice of an output file's name and format.
use vstd::prelude::*;
use vstd::string::*;

use crate::raster::{rgba_bytes, PixelBuffer};

verus! {

#[verifier::external_type_specification]
#[verifier::external_body]
pub struct ExImageError(image::ImageError);

/// The formats that an exported image can be written in.
#[derive(Clone, Copy, Debug, PartialEq, Eq, Structural)]
pub enum OutputFormat {
    Png,
    Jpeg,
}

/// A file that could not be decoded, with the decoder's message.
#[derive(Debug)]
pub struct DecodeError {
    pub message: String,
}

/// What `image::load_from_memory` followed by a conversion to 8-bit RGBA
/// gives for these bytes: width, height and the RGBA bytes.
pub uninterp spec fn decoded_rgba(bytes: Seq<u8>) -> Option<(u32, u32, Seq<u8>)>;

/// The format that `image::ImageFormat::from_path` reads from a file name,
/// when it is one that this library writes.
pub uninterp spec fn format_of_name(name: Seq<char>) -> Option<OutputFormat>;

/// What the `image` crate's encoder writes for these RGBA bytes.
pub uninterp spec fn encoded_rgba(rgba: Seq<u8>, width: u32, height: u32, format: OutputFormat) -> Option<
    Seq<u8>,
>;

/// What `std::path::Path::file_name` gives for this path.
pub uninterp spec fn file_name_of(path: Seq<char>) -> Option<Seq<char>>;

/// Relies on `image::load_from_memory` (format guessed from the bytes),
/// `DynamicImage::to_rgba8` and `ImageBuffer::into_raw`: the decoded image
/// depends on the bytes alone.
#[verifier::external_body]
fn decode_rgba(bytes: &[u8]) -> (r: Result<(u32, u32, Vec<u8>), image::ImageError>)
    ensures
        r matches Ok((w, h, data)) ==> decoded_rgba(bytes@) == Some((w, h, data@)),
        r is Err <==> decoded_rgba(bytes@) is None,
{
    image::load_from_memory(bytes).map(
        |img| {
            let rgba = img.to_rgba8();
            (rgba.width(), rgba.height(), rgba.into_raw())
        },
    )
}

/// Relies on the `Display` impl of `image::ImageError` for a readable message.
#[verifier::external_body]
fn image_error_message(e: &image::ImageError) -> (r: String) {
    format!("{}", e)
}

/// Relies on `image::ImageFormat::from_path`: the format named by a file
/// name's extension, kept when it is PNG or JPEG.
#[verifier::external_body]
fn format_from_name(name: &str) -> (r: Option<OutputFormat>)
    ensures
        r == format_of_name(name@),
{
    match image::ImageFormat::from_path(name) {
        Ok(image::ImageFormat::Png) => Some(OutputFormat::Png),
        Ok(image::ImageFormat::Jpeg) => Some(OutputFormat::Jpeg),
        _ => None,
    }
}

/// Relies on `image::write_buffer_with_format` with `ExtendedColorType::Rgba8`,
/// writing to memory. The encoder asserts that the buffer holds four bytes
/// per pixel, hence the `requires`.
#[verifier::external_body]
fn encode_rgba(rgba: &[u8], width: u32, height: u32, format: OutputFormat) -> (r: Result<
    Vec<u8>,
    image::ImageError,
>)
    requires
        rgba@.len() == 4 * (width as int * height as int),
    ensures
        r matches Ok(b) ==> encoded_rgba(rgba@, width, height, format) == Some(b@),
        r is Err <==> encoded_rgba(rgba@, width, height, format) is None,
{
    let fmt = match format {
        OutputFormat::Png => image::ImageFormat::Png,
        OutputFormat::Jpeg => image::ImageFormat::Jpeg,
    };
    let mut out = std::io::Cursor::new(Vec::new());
    image::write_buffer_with_format(&mut out, rgba, width, height, image::ExtendedColorType::Rgba8, fmt)
        .map(|_| out.into_inner())
}

/// Relies on `std::path::Path::file_name`: the last component of a path,
/// when it is a normal one.
#[verifier::external_body]
fn path_file_name(path: &str) -> (r: Option<String>)
    ensures
        r matches Some(s) ==> file_name_of(path@) == Some(s@),
        r is None <==> file_name_of(path@) is None,
{
    std::path::Path::new(path).file_name().map(|n| n.to_string_lossy().into_owned())
}

/// The pixels of an encoded image file, when the bytes decode to one.
pub fn load_image(bytes: &[u8]) -> (r: Result<PixelBuffer, DecodeError>)
    ensures
        r is Ok <==> (decoded_rgba(bytes@) matches Some((w, h, data)) && data.len() == 4 * (
        w as int * h as int)),
        r matches Ok(b) ==> b.wf() && decoded_rgba(bytes@) == Some(
            (b.width, b.height, rgba_bytes(b.pixels@)),
        ),
{
    match decode_rgba(bytes) {
        Ok((w, h, data)) => match PixelBuffer::from_rgba(w, h, data.as_slice()) {
            Some(b) => Ok(b),
            None => Err(
                DecodeError {
                    message: <String as StringExecFns>::from_str(
                        "decoded pixel data does not match the image size",
                    ),
                },
            ),
        },
        Err(e) => Err(DecodeError { message: image_error_message(&e) }),
    }
}

/// The name an exported file gets: the file name of the entry's path, or
/// `output.png` when the path has none.
pub open spec fn output_name_spec(path: Seq<char>) -> Seq<char> {
    match file_name_of(path) {
        Some(n) => n,
        None => "output.png"@,
    }
}

/// The format an exported file is written in: the one its name's extension
/// names, PNG when there is none or it is not known.
pub open spec fn output_format_spec(name: Seq<char>) -> OutputFormat {
    match format_of_name(name) {
        Some(f) => f,
        None => OutputFormat::Png,
    }
}

pub fn output_file_name(path: &str) -> (r: String)
    ensures
        r@ == output_name_spec(path@),
{
    match path_file_name(path) {
        Some(n) => n,
        None => <String as StringExecFns>::from_str("output.png"),
    }
}

pub fn output_format(name: &str) -> (r: OutputFormat)
    ensures
        r == output_format_spec(name@),
{
    match format_from_name(name) {
        Some(f) => f,
        None => OutputFormat::Png,
    }
}

/// The bytes of `image` encoded in `format`, or the encoder's message;
/// an image whose RGBA bytes would not fit in memory is refused.
pub fn encode_image(image: &PixelBuffer, format: OutputFormat) -> (r: Result<Vec<u8>, String>)
    requires
        image.wf(),
    ensures
        r is Ok <==> 4 * image.pixels@.len() <= usize::MAX && encoded_rgba(
            rgba_bytes(image.pixels@),
            image.width,
            image.height,
            format,
        ) is Some,
        r matches Ok(b) ==> encoded_rgba(rgba_bytes(image.pixels@), image.width, image.height, format)
            == Some(b@),
{
    if image.pixels.len() > usize::MAX / 4 {
        // four bytes a pixel could not be held in memory
        return Err(<String as StringExecFns>::from_str("image too large to encode"));
    }
    let rgba = image.to_rgba();
    match encode_rgba(rgba.as_slice(), image.width, image.height, format) {
        Ok(b) => Ok(b),
        Err(e) => Err(image_error_message(&e)),
    }
}

} // verus!
