//! QR codes: what a code of a record says, and the code as a PNG image.

use crate::document::{herb_json, herb_to_json};
use crate::record::{Herb, HerbView};
use crate::text::{opt_str, strip_trailing, strip_trailing_slashes};
use base64::Engine;
use vstd::prelude::*;

verus! {

/// Why no code could be made.
#[derive(Clone, Copy, Debug, PartialEq, Eq, Structural)]
pub enum EncodingError {
    /// The payload does not fit into a QR code.
    PayloadTooLarge,
    /// The bitmap could not be written as an image.
    Image,
}

/// The QR code of `data` drawn as a bitmap of grey values: its width, its
/// height and its pixels row by row; `None` where no QR code holds `data`.
pub uninterp spec fn qr_bitmap(data: Seq<char>) -> Option<(u32, u32, Seq<u8>)>;

/// The PNG file of a bitmap of grey values; `None` where it cannot be
/// written.
pub uninterp spec fn png_file(width: u32, height: u32, pixels: Seq<u8>) -> Option<Seq<u8>>;

/// The view of an optional bitmap.
pub open spec fn opt_bitmap(o: Option<(u32, u32, Vec<u8>)>) -> Option<(u32, u32, Seq<u8>)> {
    match o {
        Some((w, h, p)) => Some((w, h, p@)),
        None => None,
    }
}

/// The view of an optional list of bytes.
pub open spec fn opt_bytes(o: Option<Vec<u8>>) -> Option<Seq<u8>> {
    match o {
        Some(v) => Some(v@),
        None => None,
    }
}

/// `qrcode::QrCode::new`, drawn by `QrCode::render` with `image::Luma<u8>`
/// pixels and `Renderer::build`: the bitmap depends on the data alone, and
/// there is none where `QrCode::new` fails.
#[verifier::external_body]
fn draw_code(data: &str) -> (r: Option<(u32, u32, Vec<u8>)>)
    ensures
        opt_bitmap(r) == qr_bitmap(data@),
{
    let code = qrcode::QrCode::new(data).ok()?;
    let bitmap = code.render::<image::Luma<u8>>().build();
    Some((bitmap.width(), bitmap.height(), bitmap.into_raw()))
}

/// `image::DynamicImage::write_to` with `image::ImageFormat::Png`, on the
/// grey image that `image::ImageBuffer::from_raw` makes of the pixels: the
/// file depends on the bitmap alone.
#[verifier::external_body]
fn write_png(width: u32, height: u32, pixels: Vec<u8>) -> (r: Option<Vec<u8>>)
    requires
        pixels@.len() == width * height,
    ensures
        opt_bytes(r) == png_file(width, height, pixels@),
{
    let grey = image::GrayImage::from_raw(width, height, pixels)?;
    let mut file = Vec::new();
    let sink = std::io::Cursor::new(&mut file);
    image::DynamicImage::ImageLuma8(grey).write_to(sink, image::ImageFormat::Png).ok()?;
    Some(file)
}

/// The character that stands for six bits in Base64.
pub open spec fn base64_char(v: int) -> char {
    "ABCDEFGHIJKLMNOPQRSTUVWXYZabcdefghijklmnopqrstuvwxyz0123456789+/"@[v]
}

/// Bytes in Base64 with the standard alphabet: four characters for each
/// three bytes, with `=` to fill the last four.
pub open spec fn base64_text(bytes: Seq<u8>) -> Seq<char>
    decreases bytes.len(),
{
    if bytes.len() == 0 {
        seq![]
    } else if bytes.len() == 1 {
        let a = bytes[0] as int;
        seq![base64_char(a / 4), base64_char(a % 4 * 16), '=', '=']
    } else if bytes.len() == 2 {
        let a = bytes[0] as int;
        let b = bytes[1] as int;
        seq![base64_char(a / 4), base64_char(a % 4 * 16 + b / 16), base64_char(b % 16 * 4), '=']
    } else {
        let a = bytes[0] as int;
        let b = bytes[1] as int;
        let c = bytes[2] as int;
        seq![
            base64_char(a / 4),
            base64_char(a % 4 * 16 + b / 16),
            base64_char(b % 16 * 4 + c / 64),
            base64_char(c % 64),
        ] + base64_text(bytes.skip(3))
    }
}

/// `base64::Engine::encode` of `base64::engine::general_purpose::STANDARD`:
/// the bytes in Base64 with the standard alphabet and padding.
#[verifier::external_body]
fn to_base64(bytes: &Vec<u8>) -> (s: String)
    ensures
        s@ == base64_text(bytes@),
{
    base64::engine::general_purpose::STANDARD.encode(bytes)
}

/// What the code of a record says: where a public base URL is set, that
/// URL without the slashes at its end, `/p/` and the identifier; or else
/// the record as JSON text.
pub open spec fn qr_payload(h: HerbView, public_base: Option<Seq<char>>) -> Seq<char> {
    match public_base {
        Some(base) => strip_trailing(base, '/') + "/p/"@ + h.id,
        None => herb_json(h),
    }
}

/// The PNG file of a bitmap. Without a bitmap the payload was too large
/// for a code; a bitmap must be filled exactly by its pixels, and must be
/// one that can be written.
pub open spec fn bitmap_png(bitmap: Option<(u32, u32, Seq<u8>)>) -> Result<
    Seq<u8>,
    EncodingError,
> {
    match bitmap {
        None => Err(EncodingError::PayloadTooLarge),
        Some((w, h, p)) => if p.len() != w * h {
            Err(EncodingError::Image)
        } else {
            match png_file(w, h, p) {
                Some(file) => Ok(file),
                None => Err(EncodingError::Image),
            }
        },
    }
}

/// The QR code of `data` as a PNG file.
pub open spec fn qr_png(data: Seq<char>) -> Result<Seq<u8>, EncodingError> {
    bitmap_png(qr_bitmap(data))
}

/// The view of a file or a failure.
pub open spec fn file_result(r: Result<Vec<u8>, EncodingError>) -> Result<
    Seq<u8>,
    EncodingError,
> {
    match r {
        Ok(file) => Ok(file@),
        Err(e) => Err(e),
    }
}

/// The view of a text or a failure.
pub open spec fn text_result(r: Result<String, EncodingError>) -> Result<
    Seq<char>,
    EncodingError,
> {
    match r {
        Ok(text) => Ok(text@),
        Err(e) => Err(e),
    }
}

/// The QR code of `data` as a PNG file in Base64.
pub open spec fn qr_base64(data: Seq<char>) -> Result<Seq<char>, EncodingError> {
    match qr_png(data) {
        Ok(file) => Ok(base64_text(file)),
        Err(e) => Err(e),
    }
}

/// The QR code of `data` as a data URI that holds a PNG file.
pub open spec fn qr_data_uri(data: Seq<char>) -> Result<Seq<char>, EncodingError> {
    match qr_png(data) {
        Ok(file) => Ok(png_data_uri(file)),
        Err(e) => Err(e),
    }
}

/// The data URI of a PNG file.
pub open spec fn png_data_uri(png: Seq<u8>) -> Seq<char> {
    "data:image/png;base64,"@ + base64_text(png)
}

/// What the code of a record says.
pub fn qr_payload_of(herb: &Herb, public_base: Option<&str>) -> (s: String)
    ensures
        s@ == qr_payload(herb@, opt_str(public_base)),
{
    match public_base {
        Some(base) => {
            let mut s = strip_trailing_slashes(base);
            s.append("/p/");
            s.append(herb.id.as_str());
            s
        },
        None => herb_to_json(herb),
    }
}

/// Writes a bitmap as a PNG file. Fails where there is no bitmap, where
/// the pixels do not fill it, or where the image cannot be written.
pub fn bitmap_to_png(bitmap: Option<(u32, u32, Vec<u8>)>) -> (r: Result<Vec<u8>, EncodingError>)
    ensures
        file_result(r) == bitmap_png(opt_bitmap(bitmap)),
{
    match bitmap {
        Some((width, height, pixels)) => {
            proof {
                assert(width * height <= 0xFFFF_FFFF * 0xFFFF_FFFF) by (nonlinear_arith)
                    requires
                        0 <= width <= 0xFFFF_FFFF,
                        0 <= height <= 0xFFFF_FFFF,
                ;
            }
            let area: u64 = (width as u64) * (height as u64);
            if pixels.len() as u64 != area {
                return Err(EncodingError::Image);
            }
            match write_png(width, height, pixels) {
                Some(file) => Ok(file),
                None => Err(EncodingError::Image),
            }
        },
        None => Err(EncodingError::PayloadTooLarge),
    }
}

/// The QR code that says `data`, as a PNG file. Fails where `data` does
/// not fit into a QR code, or where the image cannot be written.
pub fn qr_png_of(data: &str) -> (r: Result<Vec<u8>, EncodingError>)
    ensures
        file_result(r) == qr_png(data@),
{
    bitmap_to_png(draw_code(data))
}

/// The QR code of a record as a PNG file.
pub fn generate_qr_png_bytes(herb: &Herb, public_base: Option<&str>) -> (r: Result<
    Vec<u8>,
    EncodingError,
>)
    ensures
        file_result(r) == qr_png(qr_payload(herb@, opt_str(public_base))),
{
    let payload = qr_payload_of(herb, public_base);
    qr_png_of(payload.as_str())
}

/// The QR code of a record as a PNG file in Base64.
pub fn generate_qr_base64(herb: &Herb, public_base: Option<&str>) -> (r: Result<
    String,
    EncodingError,
>)
    ensures
        text_result(r) == qr_base64(qr_payload(herb@, opt_str(public_base))),
{
    match generate_qr_png_bytes(herb, public_base) {
        Ok(file) => Ok(to_base64(&file)),
        Err(e) => Err(e),
    }
}

/// The data URI that holds a PNG file in Base64.
pub fn png_to_data_uri(png: &Vec<u8>) -> (s: String)
    ensures
        s@ == png_data_uri(png@),
{
    let mut s = "data:image/png;base64,".to_owned();
    s.append(to_base64(png).as_str());
    s
}

/// The QR code of a record as a data URI that holds a PNG file.
pub fn generate_qr_data_uri(herb: &Herb, public_base: Option<&str>) -> (r: Result<
    String,
    EncodingError,
>)
    ensures
        text_result(r) == qr_data_uri(qr_payload(herb@, opt_str(public_base))),
{
    match generate_qr_png_bytes(herb, public_base) {
        Ok(file) => Ok(png_to_data_uri(&file)),
        Err(e) => Err(e),
    }
}

} // verus!
