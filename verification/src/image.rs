//! Image-type sniffing and base64 encoding of image payloads.
//!
//! A classification task carries its image as a `data:` URI. The
//! container format is recognized from the buffer's magic bytes, and the
//! raw bytes are base64-encoded into the URI's payload.

use vstd::prelude::*;
use crate::error::SolverError;
use base64::prelude::BASE64_STANDARD;
use base64::Engine;
use imghdr::Type;

verus! {

/// The image container formats that sniffing can recognize.
#[derive(Debug, Clone, Copy, PartialEq, Eq, Structural)]
pub enum ImageFormat {
    Bgp,
    Bmp,
    Exr,
    Flif,
    Gif,
    Ico,
    Jpeg,
    Pbm,
    Pgm,
    Png,
    Ppm,
    Rast,
    Rgb,
    Rgbe,
    Tiff,
    Webp,
    Xbm,
}

/// The lower-case name of each recognized format, as it appears in a
/// `data:image/<name>` URI.
pub open spec fn format_name(f: ImageFormat) -> Seq<char> {
    match f {
        ImageFormat::Bgp => "bgp"@,
        ImageFormat::Bmp => "bmp"@,
        ImageFormat::Exr => "exr"@,
        ImageFormat::Flif => "flif"@,
        ImageFormat::Gif => "gif"@,
        ImageFormat::Ico => "ico"@,
        ImageFormat::Jpeg => "jpeg"@,
        ImageFormat::Pbm => "pbm"@,
        ImageFormat::Pgm => "pgm"@,
        ImageFormat::Png => "png"@,
        ImageFormat::Ppm => "ppm"@,
        ImageFormat::Rast => "rast"@,
        ImageFormat::Rgb => "rgb"@,
        ImageFormat::Rgbe => "rgbe"@,
        ImageFormat::Tiff => "tiff"@,
        ImageFormat::Webp => "webp"@,
        ImageFormat::Xbm => "xbm"@,
    }
}

/// The lower-case name of a recognized image format.
pub fn image_type_to_string(image_type: ImageFormat) -> (r: &'static str)
    ensures
        r@ == format_name(image_type),
{
    match image_type {
        ImageFormat::Bgp => "bgp",
        ImageFormat::Bmp => "bmp",
        ImageFormat::Exr => "exr",
        ImageFormat::Flif => "flif",
        ImageFormat::Gif => "gif",
        ImageFormat::Ico => "ico",
        ImageFormat::Jpeg => "jpeg",
        ImageFormat::Pbm => "pbm",
        ImageFormat::Pgm => "pgm",
        ImageFormat::Png => "png",
        ImageFormat::Ppm => "ppm",
        ImageFormat::Rast => "rast",
        ImageFormat::Rgb => "rgb",
        ImageFormat::Rgbe => "rgbe",
        ImageFormat::Tiff => "tiff",
        ImageFormat::Webp => "webp",
        ImageFormat::Xbm => "xbm",
    }
}

/// The format whose magic bytes open the buffer, if any. Sniffing reads
/// only the first bytes, so it is a function of the bytes alone.
pub uninterp spec fn sniff_of(bytes: Seq<u8>) -> Option<ImageFormat>;

/// Relies on imghdr::from_bytes: recognizes the container format from the
/// buffer's magic bytes. It reads up to the first 12 bytes unchecked, so
/// shorter buffers are kept out.
#[verifier::external_body]
fn detect_format(bytes: &[u8]) -> (r: Option<ImageFormat>)
    requires
        bytes@.len() >= 12,
    ensures
        r == sniff_of(bytes@),
{
    let t = match imghdr::from_bytes(bytes) {
        None => return None,
        Some(t) => t,
    };
    Some(match t {
        Type::Bgp => ImageFormat::Bgp, Type::Bmp => ImageFormat::Bmp, Type::Exr => ImageFormat::Exr,
        Type::Flif => ImageFormat::Flif, Type::Gif => ImageFormat::Gif, Type::Ico => ImageFormat::Ico,
        Type::Jpeg => ImageFormat::Jpeg, Type::Pbm => ImageFormat::Pbm, Type::Pgm => ImageFormat::Pgm,
        Type::Png => ImageFormat::Png, Type::Ppm => ImageFormat::Ppm, Type::Rast => ImageFormat::Rast,
        Type::Rgb => ImageFormat::Rgb, Type::Rgbe => ImageFormat::Rgbe, Type::Tiff => ImageFormat::Tiff,
        Type::Webp => ImageFormat::Webp, Type::Xbm => ImageFormat::Xbm,
    })
}

/// The standard base64 encoding of the bytes, with padding.
pub uninterp spec fn base64_of(bytes: Seq<u8>) -> Seq<char>;

/// Relies on the standard padded engine's Engine::encode from the base64
/// crate: a deterministic encoding of the bytes alone.
#[verifier::external_body]
fn base64_encode(bytes: &[u8]) -> (r: String)
    ensures
        r@ == base64_of(bytes@),
{
    BASE64_STANDARD.encode(bytes)
}

/// The `data:` URI that wraps a base64 payload of the named image format.
pub open spec fn data_uri_of(name: Seq<char>, payload: Seq<char>) -> Seq<char> {
    "data:image/"@ + name + ";base64,"@ + payload
}

/// Wraps an already-encoded payload in a `data:` URI for the format.
pub fn make_data_uri(format: ImageFormat, payload: &str) -> (r: String)
    ensures
        r@ == data_uri_of(format_name(format), payload@),
{
    let mut uri: String = String::from_str("data:image/");
    uri.append(image_type_to_string(format));
    uri.append(";base64,");
    uri.append(payload);
    uri
}

/// Encodes image bytes into a `data:image/<type>;base64,<payload>` URI.
///
/// The format is sniffed from the magic bytes; a buffer that no known
/// signature opens is rejected with
/// [`SolverError::UnknownImageFormat`]. The buffer must hold at least the
/// 12 bytes that sniffing reads.
pub fn encode_image(image: &[u8]) -> (r: Result<String, SolverError>)
    requires
        image@.len() >= 12,
    ensures
        r is Ok <==> sniff_of(image@) is Some,
        r is Ok ==> r->Ok_0@ == data_uri_of(format_name(sniff_of(image@)->0), base64_of(image@)),
        r is Err ==> r->Err_0 == SolverError::UnknownImageFormat,
{
    match detect_format(image) {
        Some(format) => {
            let encoded = base64_encode(image);
            Ok(make_data_uri(format, encoded.as_str()))
        },
        None => Err(SolverError::UnknownImageFormat),
    }
}

} // verus!
