use base64::Engine;
use vstd::prelude::*;

verus! {

#[verifier::external_type_specification]
#[verifier::external_body]
pub struct ExDynamicImage(image::DynamicImage);

/// Relies on image's `Clone` impl for `DynamicImage`, which copies the
/// pixel buffer; nothing is claimed of the copy.
pub assume_specification[ <image::DynamicImage as Clone>::clone ](img: &image::DynamicImage) -> image::DynamicImage;

/// What the standard base64 alphabet, with padding, decodes the text bytes
/// `s` to, or `None` where `s` is no such encoding.
pub uninterp spec fn base64_decoded(s: Seq<u8>) -> Option<Seq<u8>>;

/// Relies on image's `ImageReader`: the format is guessed from the leading
/// bytes and the image decoded; `None` where either step fails.
#[verifier::external_body]
pub(crate) fn decode_image(bytes: &Vec<u8>) -> (r: Option<image::DynamicImage>) {
    match image::ImageReader::new(std::io::Cursor::new(bytes)).with_guessed_format() {
        Ok(reader) => reader.decode().ok(),
        Err(_) => None,
    }
}

/// Relies on image's derived `PartialEq` for `DynamicImage`: same pixel
/// layout and samples. Nothing is claimed of the answer.
#[verifier::external_body]
pub(crate) fn same_image(a: &image::DynamicImage, b: &image::DynamicImage) -> bool {
    a == b
}

/// Relies on base64's `general_purpose::STANDARD.decode`: the bytes that the
/// text encodes, a function of the text alone.
#[verifier::external_body]
pub(crate) fn decode_base64(s: &Vec<u8>) -> (r: Option<Vec<u8>>)
    ensures
        r matches Some(v) ==> base64_decoded(s@) == Some(v@),
        r is None ==> base64_decoded(s@) is None,
{
    base64::engine::general_purpose::STANDARD.decode(s).ok()
}

} // verus!
