//! The QR code of the address that the phone opens, as an image.

use vstd::prelude::*;
use vstd::string::StringSliceAdditionalSpecFns;

verus! {

/// The QR code that `qr_code::QrCode::new` makes of `data`: the number of
/// modules per side and the modules row by row, `true` for a dark one; or
/// `None` where the data does not fit into a QR code.
pub uninterp spec fn qr_matrix(data: Seq<u8>) -> Option<(nat, Seq<bool>)>;

/// `qr_code::QrCode::new`, then `width` and `into_colors` on the code: the
/// smallest QR code of `data` at the medium level of error correction. The
/// code is a square, so it has as many modules as the square of its width.
#[verifier::external_body]
fn qr_encode(data: &[u8]) -> (r: Option<(usize, Vec<bool>)>)
    ensures
        match r {
            Some((width, dark)) => qr_matrix(data@) == Some((width as nat, dark@)) && dark@.len()
                == width * width,
            None => qr_matrix(data@) is None,
        },
{
    match qr_code::QrCode::new(data) {
        Ok(code) => {
            let width = code.width();
            let dark = code.into_colors().into_iter().map(|c| match c {
                qr_code::Color::Light => false,
                qr_code::Color::Dark => true,
            }).collect();
            Some((width, dark))
        },
        Err(_) => None,
    }
}

/// The image of a row of modules, four bytes for each: black for a dark
/// module, white for a light one, and fully opaque.
pub open spec fn rgba(dark: Seq<bool>) -> Seq<u8> {
    Seq::new(
        4 * dark.len(),
        |i: int|
            if i % 4 == 3 {
                255u8
            } else if dark[i / 4] {
                0u8
            } else {
                255u8
            },
    )
}

/// A square image, four bytes for each pixel, row by row.
pub struct QrImage {
    /// The number of pixels per side.
    pub width: usize,
    /// Red, green, blue and alpha of each pixel.
    pub pixels: Vec<u8>,
}

/// The image of the modules `dark`.
pub fn rgba_pixels(dark: &Vec<bool>) -> (pixels: Vec<u8>)
    ensures
        pixels@ == rgba(dark@),
{
    let mut pixels: Vec<u8> = Vec::new();
    let mut i: usize = 0;
    while i < dark.len()
        invariant
            i <= dark.len(),
            pixels@ == rgba(dark@.take(i as int)),
        decreases dark.len() - i,
    {
        let val: u8 = if dark[i] {
            0
        } else {
            255
        };
        pixels.push(val);
        pixels.push(val);
        pixels.push(val);
        pixels.push(255);
        i = i + 1;
        assert(pixels@ =~= rgba(dark@.take(i as int)));
    }
    assert(dark@.take(i as int) =~= dark@);
    pixels
}

/// The image of a QR code, given as the code's width and modules.
pub fn image_of(width: usize, dark: &Vec<bool>) -> (image: QrImage)
    ensures
        image.width == width,
        image.pixels@ == rgba(dark@),
{
    QrImage { width, pixels: rgba_pixels(dark) }
}

/// The QR code of `text` as an image, or `None` where the text is too long
/// for a QR code.
pub fn qr_image(text: &str) -> (image: Option<QrImage>)
    ensures
        match qr_matrix(text.spec_bytes()) {
            Some((width, dark)) => image matches Some(img) && img.width == width && img.pixels@
                == rgba(dark) && img.pixels@.len() == 4 * (width * width),
            None => image is None,
        },
{
    match qr_encode(text.as_bytes()) {
        Some((width, dark)) => Some(image_of(width, &dark)),
        None => None,
    }
}

} // verus!
