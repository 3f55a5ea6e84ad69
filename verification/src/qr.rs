//! The QR code that lets another device confirm a login: its luminance
//! image from the `qrcode_generator` crate, turned into RGB bytes for a
//! texture.

use vstd::prelude::*;

verus! {

/// The luminance image (one byte per pixel, `size` by `size`, row after
/// row) that `qrcode_generator::to_image_from_str` draws for `text` with
/// the low error correction level, or `None` when it fails.
pub uninterp spec fn qr_luma_image(text: Seq<char>, size: usize) -> Option<Seq<u8>>;

/// Why no QR code could be drawn.
#[derive(PartialEq, Eq, Structural, Clone, Copy, Debug)]
pub enum QrCodeError {
    /// The text does not fit any QR code version.
    DataTooLong,
    /// The image is too small to draw the code.
    ImageSizeTooSmall,
    /// The image is too large to draw.
    ImageSizeTooLarge,
    /// Any other failure that the crate reports.
    Other,
}

/// Calls `qrcode_generator::to_image_from_str(text, QrCodeEcc::Low, size)`.
/// The contract names the image; as the crate's source shows, an image it
/// gives holds `size * size` bytes, each 0 (dark) or 255 (light). Which
/// error comes back on failure is not stated.
#[verifier::external_body]
fn qr_image(text: &str, size: usize) -> (r: Result<Vec<u8>, QrCodeError>)
    ensures
        r is Ok <==> qr_luma_image(text@, size) is Some,
        r matches Ok(v) ==> qr_luma_image(text@, size) == Some(v@),
        r matches Ok(v) ==> v@.len() == size * size,
        r matches Ok(v) ==> forall|i: int| 0 <= i < v@.len() ==> #[trigger] v@[i] == 0 || v@[i] == 255,
{
    match qrcode_generator::to_image_from_str(text, qrcode_generator::QrCodeEcc::Low, size) {
        Ok(v) => Ok(v),
        Err(qrcode_generator::QRCodeError::DataTooLong) => Err(QrCodeError::DataTooLong),
        Err(qrcode_generator::QRCodeError::ImageSizeTooSmall) => Err(QrCodeError::ImageSizeTooSmall),
        Err(qrcode_generator::QRCodeError::ImageSizeTooLarge) => Err(QrCodeError::ImageSizeTooLarge),
        Err(_) => Err(QrCodeError::Other),
    }
}

/// Each byte of `luma` three times: a gray image as RGB.
pub open spec fn tripled(luma: Seq<u8>) -> Seq<u8> {
    Seq::new(3 * luma.len(), |i: int| luma[i / 3])
}

/// Turns a luminance image into RGB bytes, each pixel's byte repeated for
/// the three channels.
pub fn luma_to_rgb(luma: &Vec<u8>) -> (rgb: Vec<u8>)
    requires
        3 * luma@.len() <= usize::MAX,
    ensures
        rgb@ == tripled(luma@),
{
    let mut rgb: Vec<u8> = Vec::new();
    let mut i: usize = 0;
    while i < luma.len()
        invariant
            i <= luma.len(),
            3 * luma@.len() <= usize::MAX,
            rgb@.len() == 3 * i,
            forall|j: int| 0 <= j < 3 * i ==> #[trigger] rgb@[j] == luma@[j / 3],
        decreases luma.len() - i,
    {
        let p = luma[i];
        rgb.push(p);
        rgb.push(p);
        rgb.push(p);
        assert forall|j: int| 0 <= j < 3 * (i + 1) implies #[trigger] rgb@[j] == luma@[j / 3] by {
            if j >= 3 * i {
                assert(j / 3 == i as int);
            }
        }
        i = i + 1;
    }
    assert(rgb@ =~= tripled(luma@));
    rgb
}

/// The RGB bytes of the QR code of a login link for an image of `size` by
/// `size` pixels (three bytes per pixel, row after row).
pub fn login_qr_code(link: &str, size: usize) -> (r: Result<Vec<u8>, QrCodeError>)
    requires
        3 * size * size <= usize::MAX,
    ensures
        r is Ok <==> qr_luma_image(link@, size) is Some,
        r matches Ok(rgb) ==> rgb@ == tripled(qr_luma_image(link@, size)->0),
        r matches Ok(rgb) ==> rgb@.len() == 3 * size * size,
        r matches Ok(rgb) ==> forall|i: int| 0 <= i < rgb@.len() ==> #[trigger] rgb@[i] == 0 || rgb@[i] == 255,
{
    match qr_image(link, size) {
        Ok(luma) => {
            assert(3 * (size * size) == 3 * size * size) by (nonlinear_arith);
            let rgb = luma_to_rgb(&luma);
            assert forall|i: int| 0 <= i < rgb@.len() implies #[trigger] rgb@[i] == 0 || rgb@[i] == 255 by {
                assert(rgb@[i] == luma@[i / 3]);
            }
            Ok(rgb)
        },
        Err(e) => Err(e),
    }
}

} // verus!
