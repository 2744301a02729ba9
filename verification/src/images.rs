//! Image-derived values: the content-derived photo identifier (a hex SHA-256
//! digest of a normalized thumbnail rendering) and the thumbnail's data-URI
//! encoding. The pixel work and the digest itself are done by outside
//! crates behind trusted wrappers; the identifier and URI assembly on top of
//! them is verified.

use vstd::prelude::*;

use base64::Engine;
use sha2::Digest;

use crate::paths::{file_name_of, spec_file_name};
use crate::text::string_push;
use crate::types::Photo;

verus! {

/// What SHA-256 returns for a byte sequence; a function of the bytes alone.
pub uninterp spec fn sha256_of(data: Seq<u8>) -> Seq<u8>;

/// Relies on sha2's `Sha256` through the `Digest` trait: the digest is a
/// function of the input bytes alone, and is 32 bytes long.
#[verifier::external_body]
fn sha256_bytes(data: &[u8]) -> (r: Vec<u8>)
    ensures
        r@ == sha256_of(data@),
        r@.len() == 32,
{
    sha2::Sha256::digest(data).to_vec()
}

/// What the standard base64 engine (with padding) returns for a byte
/// sequence; a function of the bytes alone.
pub uninterp spec fn base64_of(data: Seq<u8>) -> Seq<char>;

/// Relies on base64's `STANDARD` engine: the encoding is a function of the
/// input bytes alone, four characters for every started group of three
/// bytes. The length bound keeps the engine's buffer-size arithmetic from
/// overflowing.
#[verifier::external_body]
fn base64_encode(data: &[u8]) -> (r: String)
    requires
        data@.len() <= usize::MAX / 4,
    ensures
        r@ == base64_of(data@),
        r@.len() == 4 * ((data@.len() + 2) / 3),
{
    base64::engine::general_purpose::STANDARD.encode(data)
}

/// The sixteen lowercase hex digits.
pub const HEX_DIGITS: [char; 16] = ['0', '1', '2', '3', '4', '5', '6', '7', '8', '9', 'a', 'b', 'c', 'd', 'e', 'f'];

/// Lowercase hex rendering of a byte sequence, two digits per byte, high
/// nibble first.
pub open spec fn spec_hex_lower(data: Seq<u8>) -> Seq<char>
    decreases data.len(),
{
    if data.len() == 0 {
        Seq::empty()
    } else {
        spec_hex_lower(data.drop_last()) + seq![
            HEX_DIGITS@[data.last() as int / 16],
            HEX_DIGITS@[data.last() as int % 16],
        ]
    }
}

/// Renders bytes as lowercase hex.
#[verifier::loop_isolation(false)]
pub fn hex_lower(data: &[u8]) -> (r: String)
    ensures
        r@ == spec_hex_lower(data@),
        r@.len() == 2 * data@.len(),
{
    let mut out = String::new();
    let n = data.len();
    let mut i: usize = 0;
    proof {
        assert(data@.take(0) =~= Seq::<u8>::empty());
        lemma_hex_lower_len(data@);
    }
    while i < n
        invariant
            i <= n,
            out@ == spec_hex_lower(data@.take(i as int)),
        decreases n - i,
    {
        let b = data[i];
        let hi = (b / 16) as usize;
        let lo = (b % 16) as usize;
        string_push(&mut out, HEX_DIGITS[hi]);
        string_push(&mut out, HEX_DIGITS[lo]);
        proof {
            assert(data@.take(i + 1).drop_last() =~= data@.take(i as int));
            assert(data@.take(i + 1).last() == data@[i as int]);
            assert(out@ =~= spec_hex_lower(data@.take(i + 1)));
        }
        i += 1;
    }
    proof {
        assert(data@.take(n as int) =~= data@);
    }
    out
}

/// Hex doubles the length.
pub proof fn lemma_hex_lower_len(data: Seq<u8>)
    ensures
        spec_hex_lower(data).len() == 2 * data.len(),
    decreases data.len(),
{
    if data.len() > 0 {
        lemma_hex_lower_len(data.drop_last());
    }
}

/// The content-derived identifier for a normalized thumbnail rendering: the
/// lowercase hex SHA-256 digest of its raw bytes.
pub fn image_id_of_bytes(bytes: &[u8]) -> (r: String)
    ensures
        r@ == spec_hex_lower(sha256_of(bytes@)),
        r@.len() == 64,
{
    let digest = sha256_bytes(bytes);
    let r = hex_lower(digest.as_slice());
    r
}

#[verifier::external_type_specification]
#[verifier::external_body]
pub struct ExDynamicImage(image::DynamicImage);

/// Relies on image's `resize_exact` (Lanczos3, 300 by 300) and `to_rgb8`:
/// the normalized rendering is a function of the image's pixels alone, and
/// its raw buffer holds three bytes for each of the 90000 pixels.
#[verifier::external_body]
fn normalized_thumbnail_rgb(img: &image::DynamicImage) -> (r: Vec<u8>)
    ensures
        r@.len() == 270000,
{
    img.resize_exact(300, 300, image::imageops::FilterType::Lanczos3).to_rgb8().into_raw()
}

/// Derives the stable content-derived identifier of an image: the hex
/// SHA-256 digest of its normalized 300-by-300 RGB rendering, so identical
/// image content always yields the same id.
pub fn generate_image_id(img: &image::DynamicImage) -> (r: String)
    ensures
        exists|b: Seq<u8>| b.len() == 270000 && r@ == spec_hex_lower(sha256_of(b)),
        r@.len() == 64,
{
    let rgb = normalized_thumbnail_rgb(img);
    let r = image_id_of_bytes(rgb.as_slice());
    proof {
        assert(rgb@.len() == 270000 && r@ == spec_hex_lower(sha256_of(rgb@)));
    }
    r
}

/// Relies on image's `thumbnail`: an aspect-preserving scale-down to fit
/// within 300 by 300.
#[verifier::external_body]
pub fn thumbnail_image(img: &image::DynamicImage) -> image::DynamicImage {
    img.thumbnail(300, 300)
}

/// The encodings a thumbnail may be written in.
#[derive(Clone, Copy, Debug, PartialEq, Eq, Structural)]
pub enum ThumbnailFormat {
    Png,
    Jpeg,
    Gif,
    WebP,
}

/// The data-URI MIME label of each encoding.
pub open spec fn spec_format_mime(format: ThumbnailFormat) -> Seq<char> {
    match format {
        ThumbnailFormat::Png => "image/png"@,
        ThumbnailFormat::Jpeg => "image/jpeg"@,
        ThumbnailFormat::Gif => "image/gif"@,
        ThumbnailFormat::WebP => "image/webp"@,
    }
}

/// The MIME label used in a thumbnail's data URI.
pub fn format_mime(format: ThumbnailFormat) -> (r: &'static str)
    ensures
        r@ == spec_format_mime(format),
{
    match format {
        ThumbnailFormat::Png => "image/png",
        ThumbnailFormat::Jpeg => "image/jpeg",
        ThumbnailFormat::Gif => "image/gif",
        ThumbnailFormat::WebP => "image/webp",
    }
}

/// Relies on image's `write_to`: encodes the image in the given format into
/// an in-memory buffer; a failure is reported, never raised.
#[verifier::external_body]
fn encode_image(img: &image::DynamicImage, format: ThumbnailFormat) -> Result<Vec<u8>, String> {
    let fmt = match format {
        ThumbnailFormat::Png => image::ImageFormat::Png,
        ThumbnailFormat::Jpeg => image::ImageFormat::Jpeg,
        ThumbnailFormat::Gif => image::ImageFormat::Gif,
        ThumbnailFormat::WebP => image::ImageFormat::WebP,
    };
    let mut buf: Vec<u8> = Vec::new();
    match img.write_to(&mut std::io::Cursor::new(&mut buf), fmt) {
        Ok(()) => Ok(buf),
        Err(e) => Err(e.to_string()),
    }
}

/// The data URI carrying encoded image bytes: the MIME label of the format,
/// then the standard base64 encoding of the bytes.
pub open spec fn spec_data_uri(format: ThumbnailFormat, bytes: Seq<u8>) -> Seq<char> {
    "data:"@ + spec_format_mime(format) + ";base64,"@ + base64_of(bytes)
}

/// Builds the data URI for encoded image bytes.
pub fn data_uri_from_bytes(bytes: &[u8], format: ThumbnailFormat) -> (r: String)
    requires
        bytes@.len() <= usize::MAX / 4,
    ensures
        r@ == spec_data_uri(format, bytes@),
{
    let b64 = base64_encode(bytes);
    let mut s = String::new();
    s.append("data:");
    s.append(format_mime(format));
    s.append(";base64,");
    s.append(b64.as_str());
    proof {
        assert(s@ =~= spec_data_uri(format, bytes@));
    }
    s
}

/// Encodes an image and wraps it as an HTML-ready data URI. A failure of
/// the encoder is reported as an error, never raised.
pub fn image_to_base64(img: &image::DynamicImage, format: ThumbnailFormat) -> (r: Result<
    String,
    String,
>)
    ensures
        match r {
            Ok(s) => exists|b: Seq<u8>| s@ == spec_data_uri(format, b),
            Err(_) => true,
        },
{
    let bytes = match encode_image(img, format) {
        Ok(b) => b,
        Err(e) => {
            return Err(e);
        }
    };
    if bytes.len() > usize::MAX / 4 {
        return Err("Encoded image too large".to_owned());
    }
    let s = data_uri_from_bytes(bytes.as_slice(), format);
    proof {
        assert(s@ == spec_data_uri(format, bytes@));
    }
    Ok(s)
}

/// Turns an opened image file into a photo: the content-derived id, the file
/// name taken from the path, and a JPEG thumbnail as data URI; settings,
/// favorite and stack state start clear.
pub fn photo_from_image(path: String, img: &image::DynamicImage) -> (r: Result<Photo, String>)
    ensures
        match r {
            Ok(p) => {
                &&& p@.id.len() == 64
                &&& p@.image_path == path@
                &&& p@.filename == spec_file_name(path@)
                &&& (exists|b: Seq<u8>| p@.base64 == spec_data_uri(ThumbnailFormat::Jpeg, b))
                &&& p@.full_res_attachment is None
                &&& p@.config is None
                &&& !p@.favorite
                &&& p@.stack_id is None
                &&& !p@.is_stack_primary
            },
            Err(_) => true,
        },
{
    let id = generate_image_id(img);
    let thumb = thumbnail_image(img);
    let base64_content = match image_to_base64(&thumb, ThumbnailFormat::Jpeg) {
        Ok(s) => s,
        Err(e) => {
            return Err(e);
        }
    };
    let filename = file_name_of(path.as_str());
    Ok(Photo {
        id,
        image_path: path,
        filename,
        base64: base64_content,
        full_res_attachment: None,
        config: None,
        favorite: false,
        stack_id: None,
        is_stack_primary: false,
    })
}

} // verus!
