//! Encoding of a clipboard image as PNG bytes.
//!
//! Reading the system clipboard is an external collaborator's work; the
//! logic here is the validation of the raw image dimensions and buffer, and
//! the exact relation of the result to the PNG encoder's output.

use vstd::prelude::*;

verus! {

/// The PNG encoding of an RGBA image with the given dimensions; it depends
/// on the pixel data and the dimensions alone.
pub uninterp spec fn png_encoding(width: u32, height: u32, rgba: Seq<u8>) -> Seq<u8>;

/// Relies on `image::RgbaImage::from_raw` and
/// `image::DynamicImage::write_to`: assembles an RGBA image from a buffer of
/// exactly `width * height * 4` bytes and writes it out in the PNG format,
/// whose bytes `png_encoding` names.
#[verifier::external_body]
fn encode_rgba_png(width: u32, height: u32, bytes: Vec<u8>) -> (r: Result<Vec<u8>, String>)
    requires
        bytes@.len() == width * height * 4,
    ensures
        r matches Ok(png) ==> png@ == png_encoding(width, height, bytes@),
{
    let Some(buffer) = image::RgbaImage::from_raw(width, height, bytes) else {
        return Err("Clipboard image buffer size mismatch".to_string());
    };
    let mut output: Vec<u8> = Vec::new();
    let image = image::DynamicImage::ImageRgba8(buffer);
    match image.write_to(&mut std::io::Cursor::new(&mut output), image::ImageFormat::Png) {
        Ok(()) => Ok(output),
        Err(err) => Err(format!("Failed to encode clipboard image: {err}")),
    }
}

/// Encodes a raw RGBA clipboard image as PNG bytes.
///
/// A dimension that does not fit the encoder's 32-bit size, or a buffer
/// whose length is not exactly four bytes per pixel, is rejected with the
/// matching message; otherwise the result is the PNG encoding, unless the
/// encoder itself fails.
pub fn encode_png(width: usize, height: usize, bytes: Vec<u8>) -> (r: Result<Vec<u8>, String>)
    ensures
        width > u32::MAX ==> (r matches Err(m) && m@ == "Clipboard image width overflow"@),
        width <= u32::MAX && height > u32::MAX ==> (r matches Err(m) && m@
            == "Clipboard image height overflow"@),
        width <= u32::MAX && height <= u32::MAX && bytes@.len() != width * height * 4 ==> (
        r matches Err(m) && m@ == "Clipboard image buffer size mismatch"@),
        width <= u32::MAX && height <= u32::MAX && bytes@.len() == width * height * 4 ==> (
        r matches Ok(png) ==> png@ == png_encoding(width as u32, height as u32, bytes@)),
{
    if width > u32::MAX as usize {
        return Err("Clipboard image width overflow".to_owned());
    }
    if height > u32::MAX as usize {
        return Err("Clipboard image height overflow".to_owned());
    }
    let w = width as u32;
    let h = height as u32;
    proof {
        assert((w as int) * (h as int) <= 0xffff_ffff * 0xffff_ffff) by (nonlinear_arith)
            requires
                w as int <= 0xffff_ffff,
                h as int <= 0xffff_ffff,
        ;
    }
    let expected: u128 = (w as u128) * (h as u128) * 4;
    if (bytes.len() as u128) != expected {
        return Err("Clipboard image buffer size mismatch".to_owned());
    }
    encode_rgba_png(w, h, bytes)
}

} // verus!
