//! What this library has from the crates `base64` and `image`: decoding base64
//! text, decoding an encoded picture, and scaling a picture. Nothing in this
//! file is proved; each contract says what the called function's source shows.

use vstd::prelude::*;
use crate::picture::{RgbImage, RgbView};

verus! {

#[verifier::external_type_specification]
#[verifier::external_body]
pub struct ExBase64DecodeError(base64::DecodeError);

#[verifier::external_type_specification]
#[verifier::external_body]
pub struct ExImageError(image::ImageError);

/// The bytes that `text` stands for in base64 with the standard alphabet and
/// canonical padding; `None` where `text` is no such encoding.
pub uninterp spec fn base64_standard(text: Seq<char>) -> Option<Seq<u8>>;

/// The picture that `encoded` holds in the format that its first bytes show,
/// one of those built into the crate `image`, converted to eight-bit RGB;
/// `None` where it holds none.
pub uninterp spec fn decoded_rgb(encoded: Seq<u8>) -> Option<RgbView>;

/// The samples of `source` resampled to `width` by `height` pixels with the
/// triangle filter.
pub uninterp spec fn resized_triangle(source: RgbView, width: nat, height: nat) -> Seq<u8>;

/// The samples of `source` scaled to `width` by `height` pixels: those of
/// `source` itself where it has that size already, and those that the
/// triangle filter gives otherwise.
pub open spec fn scaled_samples(source: RgbView, width: nat, height: nat) -> Seq<u8> {
    if source.width == width && source.height == height {
        source.samples
    } else {
        resized_triangle(source, width, height)
    }
}

/// `base64::Engine::decode` on the engine `STANDARD`. The result depends on
/// the bytes of `text` alone: it is the decoded bytes, or the error that says
/// where `text` is not valid base64.
#[verifier::external_body]
pub(crate) fn decode_base64(text: &str) -> (r: Result<Vec<u8>, base64::DecodeError>)
    ensures
        match r {
            Ok(bytes) => base64_standard(text@) == Some(bytes@),
            Err(_) => base64_standard(text@) is None,
        },
{
    base64::Engine::decode(&base64::engine::general_purpose::STANDARD, text)
}

/// `image::guess_format`, `image::load_from_memory_with_format` with the
/// format found, then `DynamicImage::to_rgb8`. The format is looked up in the
/// crate's fixed table of signatures and decoded by the decoder built in for
/// it, so that the result depends on `encoded` alone: no decoder or signature
/// that the process has registered is asked. The buffer of the picture that
/// comes back holds exactly three samples for each of its pixels.
#[verifier::external_body]
pub(crate) fn decode_rgb(encoded: &[u8]) -> (r: Result<RgbImage, image::ImageError>)
    ensures
        match r {
            Ok(picture) => decoded_rgb(encoded@) == Some(picture@) && picture@.well_formed(),
            Err(_) => decoded_rgb(encoded@) is None,
        },
{
    let format = image::guess_format(encoded)?;
    let rgb = image::load_from_memory_with_format(encoded, format)?.to_rgb8();
    Ok(RgbImage { width: rgb.width(), height: rgb.height(), samples: rgb.into_raw() })
}

/// Whether `image::imageops::resize` can allocate what it needs to scale a
/// picture `source_width` pixels wide to `width` by `height` pixels: between
/// its two passes it holds `source_width * height` pixels of four 32-bit
/// samples each, and it returns `width * height` pixels of three bytes.
pub open spec fn resize_fits(source_width: nat, width: nat, height: nat) -> bool {
    &&& 16 * source_width * height <= isize::MAX
    &&& 3 * width * height <= isize::MAX
}

/// `image::imageops::resize` with `FilterType::Triangle`. The picture that
/// comes back is `width` by `height` pixels whatever the size of `source`.
/// A source of that very size is copied sample by sample. Of any other the
/// samples that come back depend on `source`, `width` and `height` alone (an
/// empty source gives a black picture).
#[verifier::external_body]
pub(crate) fn resize_triangle(source: &RgbImage, width: u32, height: u32) -> (r: RgbImage)
    requires
        resize_fits(source@.width, width as nat, height as nat),
    ensures
        r@.width == width,
        r@.height == height,
        source@.width == width && source@.height == height ==> r@.samples == source@.samples,
        !(source@.width == width && source@.height == height) ==> r@.samples == resized_triangle(
            source@,
            width as nat,
            height as nat,
        ),
        r@.well_formed(),
{
    let view = image::ImageBuffer::<image::Rgb<u8>, &[u8]>::from_raw(
        source.width,
        source.height,
        source.samples.as_slice(),
    ).unwrap();
    let scaled = image::imageops::resize(&view, width, height, image::imageops::FilterType::Triangle);
    RgbImage { width: scaled.width(), height: scaled.height(), samples: scaled.into_raw() }
}

} // verus!
