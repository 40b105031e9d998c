//! # QR Code Generation
//!
//! QR codes carry the pairing payload (the JSON text of a
//! `QrPairingData`, serialized by the caller) for out-of-band discovery
//! and authentication: as text for a terminal, or as a PNG image for the
//! GUI. The qrcode crate computes the code and its rendering, the image
//! crate the PNG encoding.

use vstd::prelude::*;

verus! {

/// Why a QR code could not be produced.
#[derive(Debug, Clone, Copy, PartialEq, Eq, Structural)]
pub enum QrGenerateError {
    /// The payload does not fit in a QR code.
    TooLong,
    /// The image could not be encoded as PNG.
    Encode,
}

/// The terminal rendering of the QR code of `payload` (two modules per
/// character, colours inverted for dark terminals), or `None` when the
/// payload does not fit in a QR code.
pub uninterp spec fn qr_terminal_text_of(payload: Seq<u8>) -> Option<Seq<char>>;

/// Whether the payload fits in a QR code.
pub uninterp spec fn qr_accepts(payload: Seq<u8>) -> bool;

/// The PNG bytes of the QR code of `payload` (with a quiet zone, at least
/// 256×256 pixels), when the payload fits and the encoding succeeds.
pub uninterp spec fn qr_png_of(payload: Seq<u8>) -> Option<Seq<u8>>;

/// Calls `qrcode::QrCode::new` on the payload and renders the code with
/// `render::<unicode::Dense1x2>()`, dark and light swapped. Assumed: the
/// text depends on the payload alone, and there is none exactly when
/// `QrCode::new` refuses the payload.
#[verifier::external_body]
fn qr_terminal_text(payload: &[u8]) -> (r: Option<String>)
    ensures
        r is Some <==> qr_accepts(payload@),
        match r {
            Some(s) => qr_terminal_text_of(payload@) == Some(s@),
            None => qr_terminal_text_of(payload@) is None,
        },
{
    let code = qrcode::QrCode::new(payload).ok()?;
    Some(
        code.render::<qrcode::render::unicode::Dense1x2>().dark_color(
            qrcode::render::unicode::Dense1x2::Light,
        ).light_color(qrcode::render::unicode::Dense1x2::Dark).build(),
    )
}

/// The result reports a payload too long for a QR code.
pub open spec fn refused_as_too_long(r: Result<Vec<u8>, QrGenerateError>) -> bool {
    r matches Err(QrGenerateError::TooLong)
}

/// Calls `qrcode::QrCode::new` on the payload, renders the code as an
/// `image::Luma<u8>` image with a quiet zone and at least 256×256 pixels,
/// and encodes it with `DynamicImage::write_to` as PNG. Assumed: the bytes
/// depend on the payload alone; `TooLong` comes exactly when
/// `QrCode::new` refuses the payload, `Encode` when the PNG encoder fails.
#[verifier::external_body]
fn qr_png_bytes(payload: &[u8]) -> (r: Result<Vec<u8>, QrGenerateError>)
    ensures
        refused_as_too_long(r) <==> !qr_accepts(payload@),
        match r {
            Ok(b) => qr_png_of(payload@) == Some(b@),
            Err(_) => qr_png_of(payload@) is None,
        },
{
    let code = match qrcode::QrCode::new(payload) {
        Ok(c) => c,
        Err(_) => return Err(QrGenerateError::TooLong),
    };
    let image = code.render::<image::Luma<u8>>().quiet_zone(true).min_dimensions(256, 256).build();
    let mut png = Vec::new();
    let mut cursor = std::io::Cursor::new(&mut png);
    match image::DynamicImage::ImageLuma8(image).write_to(&mut cursor, image::ImageFormat::Png) {
        Ok(()) => Ok(png),
        Err(_) => Err(QrGenerateError::Encode),
    }
}

/// The QR code of a pairing payload as terminal text.
pub fn generate_terminal_qr(payload: &[u8]) -> (r: Result<String, QrGenerateError>)
    ensures
        match r {
            Ok(s) => qr_accepts(payload@) && qr_terminal_text_of(payload@) == Some(s@),
            Err(e) => !qr_accepts(payload@) && e == QrGenerateError::TooLong,
        },
{
    match qr_terminal_text(payload) {
        Some(s) => Ok(s),
        None => Err(QrGenerateError::TooLong),
    }
}

/// The QR code of a pairing payload as PNG bytes.
pub fn generate_qr_bytes(payload: &[u8]) -> (r: Result<Vec<u8>, QrGenerateError>)
    ensures
        match r {
            Ok(b) => qr_png_of(payload@) == Some(b@),
            Err(QrGenerateError::TooLong) => !qr_accepts(payload@) && qr_png_of(payload@) is None,
            Err(QrGenerateError::Encode) => qr_accepts(payload@) && qr_png_of(payload@) is None,
        },
{
    qr_png_bytes(payload)
}

} // verus!
