//! Pictures that a job carries as base64 text, bare or as a data URL, and the
//! raster command that prints them.

use vstd::prelude::*;
use vstd::string::StrSliceExecFns;
use crate::codecs::{
    base64_standard, decode_base64, decode_rgb, decoded_rgb, resize_fits, resize_triangle,
    scaled_samples,
};
use crate::picture::{RgbImage, RgbView};
use crate::raster::{
    is_ink, lemma_raster_command_len, lemma_uniform_picture, raster_command, raster_data,
    raster_header, rasterize,
};
use crate::text::{
    begins_with, chars_of, find, occurs, position_of, starts_with, trim_bounds, trimmed,
};

verus! {

/// Width in dots of the area that a picture is printed in.
pub const RASTER_WIDTH: u32 = 384;

/// Height in dots of the area that a picture is printed in.
pub const RASTER_HEIGHT: u32 = 64;

/// Why a picture could not be turned into a raster command.
#[derive(Clone, Copy, Debug, PartialEq, Eq, Structural)]
pub enum DecodingError {
    /// The text begins like a data URL and has no `base64,` in it.
    MissingMarker,
    /// The text is not valid base64.
    InvalidBase64,
    /// The decoded bytes are no picture in a known format.
    InvalidImage,
    /// The picture is too wide to be scaled on this machine.
    TooLarge,
}

/// What a data URL that holds a picture begins with.
pub open spec fn data_url_prefix() -> Seq<char> {
    seq!['d', 'a', 't', 'a', ':', 'i', 'm', 'a', 'g', 'e', '/']
}

/// What stands before the base64 text in a data URL.
pub open spec fn base64_marker() -> Seq<char> {
    seq!['b', 'a', 's', 'e', '6', '4', ',']
}

/// The base64 part of `text`. Of a data URL it is all that follows the first
/// `base64,`, and there is none where the marker is missing; any other text
/// is base64 itself, once the white space around it is taken off.
pub open spec fn base64_payload(text: Seq<char>) -> Option<Seq<char>> {
    if begins_with(text, data_url_prefix()) {
        if occurs(text, base64_marker()) {
            Some(text.skip(position_of(text, base64_marker()) + base64_marker().len()))
        } else {
            None
        }
    } else {
        Some(trimmed(text))
    }
}

/// `picture` scaled to the print area, its proportions given up. A picture
/// that has the size of the print area stays as it is.
pub open spec fn fitted(picture: RgbView) -> RgbView {
    RgbView {
        width: RASTER_WIDTH as nat,
        height: RASTER_HEIGHT as nat,
        samples: scaled_samples(picture, RASTER_WIDTH as nat, RASTER_HEIGHT as nat),
    }
}

/// Whether a picture can be scaled to the print area on this machine.
pub open spec fn can_be_fitted(picture: RgbView) -> bool {
    resize_fits(picture.width, RASTER_WIDTH as nat, RASTER_HEIGHT as nat)
}

/// The widest picture that can be scaled to the print area on every
/// machine, whatever the size of its addresses.
pub const PORTABLE_WIDTH: u32 = 0x1F_FFFF;

/// Every picture up to [`PORTABLE_WIDTH`] pixels wide can be scaled to the
/// print area, and on a machine with addresses of 64 bits every picture
/// whose width is a 32-bit number, which is every picture that there is.
pub proof fn lemma_can_be_fitted(picture: RgbView)
    ensures
        picture.width <= PORTABLE_WIDTH ==> can_be_fitted(picture),
        picture.width <= u32::MAX && isize::MAX >= 0x7FFF_FFFF_FFFF_FFFF ==> can_be_fitted(
            picture,
        ),
{
}

/// Whether `picture` has the size of the print area and is ink all over.
pub open spec fn is_black_print_area(picture: RgbView) -> bool {
    &&& picture.width == RASTER_WIDTH
    &&& picture.height == RASTER_HEIGHT
    &&& forall|x: int, y: int| picture.contains(x, y) ==> is_ink(#[trigger] picture.pixel(x, y))
}

/// Whether `command` is the raster command of a print area that is ink all
/// over: the header of the print area, then bytes `0xFF` only.
pub open spec fn is_black_raster(command: Seq<u8>) -> bool {
    &&& command.len() == 8 + 48 * 8
    &&& command.take(8) == fitted_header()
    &&& forall|i: int| 8 <= i < command.len() ==> #[trigger] command[i] == 0xFF
}

/// What the raster command of a picture in the print area begins with: the
/// bitmap has 48 bytes in a row and 64 dots in height.
pub open spec fn fitted_header() -> Seq<u8> {
    seq![0x1Du8, 0x76u8, 0x30u8, 0x00u8, 48u8, 0u8, 64u8, 0u8]
}

/// Whatever a picture looked like before it was scaled, its raster command
/// names the size of the print area and holds 8 rows of 48 bytes.
pub proof fn lemma_fitted_raster_shape(picture: RgbView)
    ensures
        fitted(picture).width == RASTER_WIDTH,
        fitted(picture).height == RASTER_HEIGHT,
        raster_header(fitted(picture)) == fitted_header(),
        raster_command(fitted(picture)).len() == 8 + 48 * 8,
{
    lemma_raster_command_len(fitted(picture));
    assert(raster_header(fitted(picture)) =~= fitted_header());
}

/// Every picture that can be scaled gives a raster command, and the command
/// is that of a bitmap of 384 by 64 dots whatever the size and the
/// proportions of the picture.
pub proof fn lemma_every_picture_fills_the_print_area(picture: RgbView)
    requires
        can_be_fitted(picture),
    ensures
        picture_raster(picture) matches Ok(command) && command.len() == 8 + 48 * 8
            && command.take(8) == fitted_header(),
{
    lemma_fitted_raster_shape(picture);
    assert(raster_command(fitted(picture)).take(8) =~= raster_header(fitted(picture)));
}

/// A picture that has the size of the print area and is ink all over gives
/// the header of the print area followed by bytes `0xFF` only.
pub proof fn lemma_black_picture_prints_black(picture: RgbView)
    requires
        is_black_print_area(picture),
    ensures
        picture_raster(picture) matches Ok(command) && is_black_raster(command),
{
    lemma_can_be_fitted(picture);
    lemma_every_picture_fills_the_print_area(picture);
    assert(fitted(picture) == picture);
    lemma_uniform_picture(picture, true);
    let command = raster_command(picture);
    assert forall|i: int| 8 <= i < command.len() implies #[trigger] command[i] == 0xFF by {
        assert(command[i] == raster_data(picture)[i - 8]);
    }
}

/// The raster command for a decoded picture.
pub open spec fn picture_raster(picture: RgbView) -> Result<Seq<u8>, DecodingError> {
    if can_be_fitted(picture) {
        Ok(raster_command(fitted(picture)))
    } else {
        Err(DecodingError::TooLarge)
    }
}

/// The raster command for the bytes of an encoded picture.
pub open spec fn encoded_raster(encoded: Seq<u8>) -> Result<Seq<u8>, DecodingError> {
    match decoded_rgb(encoded) {
        Some(picture) => picture_raster(picture),
        None => Err(DecodingError::InvalidImage),
    }
}

/// The raster command for a picture in base64.
pub open spec fn base64_raster(payload: Seq<char>) -> Result<Seq<u8>, DecodingError> {
    match base64_standard(payload) {
        Some(encoded) => encoded_raster(encoded),
        None => Err(DecodingError::InvalidBase64),
    }
}

/// The raster command for a picture that a job carries as text.
pub open spec fn embedded_raster(text: Seq<char>) -> Result<Seq<u8>, DecodingError> {
    match base64_payload(text) {
        Some(payload) => base64_raster(payload),
        None => Err(DecodingError::MissingMarker),
    }
}

/// The picture that `payload` holds in base64, decoded; `None` where it
/// holds none.
pub open spec fn base64_picture(payload: Seq<char>) -> Option<RgbView> {
    match base64_standard(payload) {
        Some(encoded) => decoded_rgb(encoded),
        None => None,
    }
}

/// The picture that a job carries as `text`, decoded; `None` where `text`
/// holds none.
pub open spec fn embedded_picture(text: Seq<char>) -> Option<RgbView> {
    match base64_payload(text) {
        Some(payload) => base64_picture(payload),
        None => None,
    }
}

/// Whether addresses have 64 bits on this machine.
pub open spec fn wide_addresses() -> bool {
    isize::MAX >= 0x7FFF_FFFF_FFFF_FFFF
}

/// Whether `result` is what `picture` asks for: a command wherever there is
/// a picture that can be scaled, a command that is all ink where the picture
/// is a print area of ink, and an error where there is no picture.
pub open spec fn shows(picture: Option<RgbView>, result: Result<Seq<u8>, DecodingError>) -> bool {
    match picture {
        Some(picture) => {
            &&& can_be_fitted(picture) ==> result is Ok
            &&& is_black_print_area(picture) ==> (result matches Ok(command) && is_black_raster(
                command,
            ))
        },
        None => result is Err,
    }
}

/// The raster command for a text is what the picture in the text asks for,
/// see [`shows`].
pub proof fn lemma_raster_shows_picture(text: Seq<char>)
    ensures
        shows(embedded_picture(text), embedded_raster(text)),
{
    if let Some(picture) = embedded_picture(text) {
        if is_black_print_area(picture) {
            lemma_black_picture_prints_black(picture);
        }
    }
}

/// What a function that returns a command or an error hands back, as values
/// of the model.
pub open spec fn outcome(r: Result<Vec<u8>, DecodingError>) -> Result<Seq<u8>, DecodingError> {
    match r {
        Ok(command) => Ok(command@),
        Err(e) => Err(e),
    }
}

/// The base64 part of `text`, see [`base64_payload`].
pub fn payload_of(text: &str) -> (r: Result<&str, DecodingError>)
    ensures
        match r {
            Ok(payload) => base64_payload(text@) == Some(payload@),
            Err(e) => e == DecodingError::MissingMarker && base64_payload(text@) is None,
        },
{
    let chars = chars_of(text);
    let prefix: [char; 11] = ['d', 'a', 't', 'a', ':', 'i', 'm', 'a', 'g', 'e', '/'];
    let marker: [char; 7] = ['b', 'a', 's', 'e', '6', '4', ','];
    assert(prefix@ == data_url_prefix());
    assert(marker@ == base64_marker());
    if starts_with(chars.as_slice(), prefix.as_slice()) {
        match find(chars.as_slice(), marker.as_slice()) {
            Some(at) => {
                let len = chars.len();
                assert(base64_marker().len() == 7);
                assert(at + 7 <= len);
                let payload = text.substring_char(at + 7, len);
                assert(payload@ == text@.skip(at + 7));
                Ok(payload)
            },
            None => Err(DecodingError::MissingMarker),
        }
    } else {
        let (start, end) = trim_bounds(chars.as_slice());
        Ok(text.substring_char(start, end))
    }
}

/// Scales `picture` to the print area of 384 by 64 dots. The result has that
/// size whatever the proportions of `picture`: it is stretched or squeezed to
/// fit, not padded.
pub fn fit_to_raster_area(picture: &RgbImage) -> (r: RgbImage)
    requires
        can_be_fitted(picture@),
    ensures
        r@ == fitted(picture@),
        r@.width == RASTER_WIDTH,
        r@.height == RASTER_HEIGHT,
        r@.well_formed(),
{
    resize_triangle(picture, RASTER_WIDTH, RASTER_HEIGHT)
}

/// The raster command for `picture`, scaled to the print area.
pub fn raster_from_picture(picture: &RgbImage) -> (r: Result<Vec<u8>, DecodingError>)
    ensures
        outcome(r) == picture_raster(picture@),
        r matches Ok(command) ==> command@.len() == 8 + 48 * 8 && command@.take(8)
            == fitted_header(),
        shows(Some(picture@), outcome(r)),
        wide_addresses() ==> r is Ok,
{
    proof {
        lemma_fitted_raster_shape(picture@);
        assert(raster_command(fitted(picture@)).take(8) =~= raster_header(fitted(picture@)));
        if is_black_print_area(picture@) {
            lemma_black_picture_prints_black(picture@);
        }
    }
    let width = picture.width();
    if (width as u64) * 16 * (RASTER_HEIGHT as u64) <= (isize::MAX as u64) {
        let fitted = fit_to_raster_area(picture);
        Ok(rasterize(&fitted))
    } else {
        Err(DecodingError::TooLarge)
    }
}

/// The raster command for the picture that `encoded` holds.
pub fn raster_from_encoded(encoded: &[u8]) -> (r: Result<Vec<u8>, DecodingError>)
    ensures
        outcome(r) == encoded_raster(encoded@),
        r matches Ok(command) ==> command@.len() == 8 + 48 * 8 && command@.take(8)
            == fitted_header(),
        shows(decoded_rgb(encoded@), outcome(r)),
        wide_addresses() && decoded_rgb(encoded@) is Some ==> r is Ok,
{
    match decode_rgb(encoded) {
        Ok(picture) => raster_from_picture(&picture),
        Err(_) => Err(DecodingError::InvalidImage),
    }
}

/// The raster command for the picture that `payload` holds in base64.
pub fn raster_from_base64(payload: &str) -> (r: Result<Vec<u8>, DecodingError>)
    ensures
        outcome(r) == base64_raster(payload@),
        r matches Ok(command) ==> command@.len() == 8 + 48 * 8 && command@.take(8)
            == fitted_header(),
        shows(base64_picture(payload@), outcome(r)),
        wide_addresses() && base64_picture(payload@) is Some ==> r is Ok,
{
    match decode_base64(payload) {
        Ok(encoded) => raster_from_encoded(encoded.as_slice()),
        Err(_) => Err(DecodingError::InvalidBase64),
    }
}

/// The raster command for a picture given as base64 text or as a data URL.
pub fn raster_from_embedded(text: &str) -> (r: Result<Vec<u8>, DecodingError>)
    ensures
        outcome(r) == embedded_raster(text@),
        r matches Ok(command) ==> command@.len() == 8 + 48 * 8 && command@.take(8)
            == fitted_header(),
        shows(embedded_picture(text@), outcome(r)),
        wide_addresses() && embedded_picture(text@) is Some ==> r is Ok,
{
    match payload_of(text) {
        Ok(payload) => raster_from_base64(payload),
        Err(e) => Err(e),
    }
}

/// The raster command that prints the logo `base64_data` at the head of a
/// ticket.
pub fn logo_to_escpos(base64_data: &str) -> (r: Result<Vec<u8>, DecodingError>)
    ensures
        outcome(r) == embedded_raster(base64_data@),
        r matches Ok(command) ==> command@.len() == 8 + 48 * 8 && command@.take(8)
            == fitted_header(),
        shows(embedded_picture(base64_data@), outcome(r)),
        wide_addresses() && embedded_picture(base64_data@) is Some ==> r is Ok,
{
    raster_from_embedded(base64_data)
}

/// The raster command that prints the barcode picture `base64_data` on a
/// label.
pub fn barcode_image_to_escpos(base64_data: &str) -> (r: Result<Vec<u8>, DecodingError>)
    ensures
        outcome(r) == embedded_raster(base64_data@),
        r matches Ok(command) ==> command@.len() == 8 + 48 * 8 && command@.take(8)
            == fitted_header(),
        shows(embedded_picture(base64_data@), outcome(r)),
        wide_addresses() && embedded_picture(base64_data@) is Some ==> r is Ok,
{
    raster_from_embedded(base64_data)
}

} // verus!
