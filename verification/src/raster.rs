//! The raster bit-image command: a picture thresholded to ink and no ink and
//! packed eight pixels to the byte.

use vstd::prelude::*;
use crate::picture::{RgbImage, RgbView};

verus! {

/// Brightness of a pixel between 0 (black) and 255 (white): the weighted mean
/// `(299 R + 587 G + 114 B) / 1000`, rounded down.
pub open spec fn luma(pixel: (u8, u8, u8)) -> int {
    (299 * pixel.0 + 587 * pixel.1 + 114 * pixel.2) / 1000
}

/// Whether the printer puts ink where `pixel` is: where it is darker than the
/// middle of the scale.
pub open spec fn is_ink(pixel: (u8, u8, u8)) -> bool {
    luma(pixel) < 128
}

/// Decides [`is_ink`].
pub fn ink(pixel: (u8, u8, u8)) -> (r: bool)
    ensures
        r == is_ink(pixel),
{
    let weighted: u32 = 299 * (pixel.0 as u32) + 587 * (pixel.1 as u32) + 114 * (pixel.2 as u32);
    weighted / 1000 < 128
}

/// What the pixel `place` places right of a byte's leftmost pixel adds to the
/// byte when it is ink: the leftmost pixel is the most significant bit.
pub open spec fn bit_weight(place: int) -> int {
    if place == 0 {
        128
    } else if place == 1 {
        64
    } else if place == 2 {
        32
    } else if place == 3 {
        16
    } else if place == 4 {
        8
    } else if place == 5 {
        4
    } else if place == 6 {
        2
    } else {
        1
    }
}

/// The byte for the first `count` of the eight pixels that begin at column
/// `x` of row `y`, the others taken as no ink.
pub open spec fn packed_bits(image: RgbView, x: int, y: int, count: nat) -> int
    decreases count,
{
    if count == 0 {
        0
    } else {
        packed_bits(image, x, y, (count - 1) as nat) + if is_ink(image.pixel(x + count - 1, y)) {
            bit_weight(count - 1)
        } else {
            0
        }
    }
}

/// The byte for the eight pixels that begin at column `x` of row `y`.
pub open spec fn packed_byte(image: RgbView, x: int, y: int) -> u8 {
    packed_bits(image, x, y, 8) as u8
}

/// How many bytes a row of the bitmap takes.
pub open spec fn row_bytes(image: RgbView) -> nat {
    image.width / 8
}

/// How many rows of bytes the bitmap has: one for each band of eight rows of
/// the picture.
pub open spec fn band_count(image: RgbView) -> nat {
    image.height / 8
}

/// The bytes for band `band`: they are taken from the first row of the band,
/// row `8 * band` of the picture.
pub open spec fn band_row(image: RgbView, band: int) -> Seq<u8> {
    Seq::new(row_bytes(image), |column: int| packed_byte(image, 8 * column, 8 * band))
}

/// The bytes for the first `count` bands, from the top.
pub open spec fn bands(image: RgbView, count: nat) -> Seq<u8>
    decreases count,
{
    if count == 0 {
        Seq::empty()
    } else {
        bands(image, (count - 1) as nat) + band_row(image, count - 1)
    }
}

/// The packed bitmap of `image`.
pub open spec fn raster_data(image: RgbView) -> Seq<u8> {
    bands(image, band_count(image))
}

/// The two low bytes of `n`, the lower one first.
pub open spec fn le16(n: nat) -> Seq<u8> {
    seq![(n % 256) as u8, (n / 256 % 256) as u8]
}

/// `GS v 0 0 xL xH yL yH`: what begins a raster bit image in mode 0 of
/// `row_bytes` bytes by `height` dots.
pub open spec fn raster_header(image: RgbView) -> Seq<u8> {
    seq![0x1Du8, 0x76u8, 0x30u8, 0x00u8] + le16(row_bytes(image)) + le16(image.height)
}

/// The raster bit-image command for `image`.
pub open spec fn raster_command(image: RgbView) -> Seq<u8> {
    raster_header(image) + raster_data(image)
}

/// The first `count` bands hold `count` rows of bytes.
pub proof fn lemma_bands_len(image: RgbView, count: nat)
    ensures
        bands(image, count).len() == count * row_bytes(image),
    decreases count,
{
    if count > 0 {
        lemma_bands_len(image, (count - 1) as nat);
        assert((count - 1) * row_bytes(image) + row_bytes(image) == count * row_bytes(image))
            by (nonlinear_arith);
    } else {
        assert(0 * row_bytes(image) == 0) by (nonlinear_arith);
    }
}

/// The command is eight bytes of header and one byte for every eight pixels
/// of the first row of each band.
pub proof fn lemma_raster_command_len(image: RgbView)
    ensures
        raster_command(image).len() == 8 + band_count(image) * row_bytes(image),
{
    lemma_bands_len(image, band_count(image));
}

/// Eight pixels of ink make the byte `0xFF`, eight without ink the byte 0.
pub proof fn lemma_packed_byte_uniform(image: RgbView, x: int, y: int, inked: bool)
    requires
        forall|place: int| 0 <= place < 8 ==> is_ink(#[trigger] image.pixel(x + place, y)) == inked,
    ensures
        packed_byte(image, x, y) == (if inked {
            0xFFu8
        } else {
            0x00u8
        }),
{
    reveal_with_fuel(packed_bits, 9);
    assert(is_ink(image.pixel(x + 0, y)) == inked);
    assert(is_ink(image.pixel(x + 1, y)) == inked);
    assert(is_ink(image.pixel(x + 2, y)) == inked);
    assert(is_ink(image.pixel(x + 3, y)) == inked);
    assert(is_ink(image.pixel(x + 4, y)) == inked);
    assert(is_ink(image.pixel(x + 5, y)) == inked);
    assert(is_ink(image.pixel(x + 6, y)) == inked);
    assert(is_ink(image.pixel(x + 7, y)) == inked);
}

/// Where every pixel of a picture is ink, every byte of its first bands is
/// `0xFF`; where none is, every byte is 0.
proof fn lemma_uniform_bands(image: RgbView, inked: bool, count: nat)
    requires
        count <= band_count(image),
        forall|x: int, y: int|
            image.contains(x, y) ==> is_ink(#[trigger] image.pixel(x, y)) == inked,
    ensures
        forall|k: int|
            0 <= k < bands(image, count).len() ==> #[trigger] bands(image, count)[k] == (if inked {
                0xFFu8
            } else {
                0x00u8
            }),
    decreases count,
{
    if count > 0 {
        let before = bands(image, (count - 1) as nat);
        let row = band_row(image, count - 1);
        lemma_uniform_bands(image, inked, (count - 1) as nat);
        assert forall|k: int| 0 <= k < bands(image, count).len() implies #[trigger] bands(
            image,
            count,
        )[k] == (if inked {
            0xFFu8
        } else {
            0x00u8
        }) by {
            if k >= before.len() {
                let column = k - before.len();
                assert(bands(image, count)[k] == row[column]);
                assert forall|place: int| 0 <= place < 8 implies is_ink(
                    #[trigger] image.pixel(8 * column + place, 8 * (count - 1)),
                ) == inked by {
                    assert(image.contains(8 * column + place, 8 * (count - 1)));
                }
                lemma_packed_byte_uniform(image, 8 * column, 8 * (count - 1), inked);
            } else {
                assert(bands(image, count)[k] == before[k]);
            }
        }
    }
}

/// A picture that is all ink has a bitmap of bytes `0xFF`, and one without
/// any ink a bitmap of zeros.
pub proof fn lemma_uniform_picture(image: RgbView, inked: bool)
    requires
        forall|x: int, y: int|
            image.contains(x, y) ==> is_ink(#[trigger] image.pixel(x, y)) == inked,
    ensures
        forall|k: int|
            0 <= k < raster_data(image).len() ==> #[trigger] raster_data(image)[k] == (if inked {
                0xFFu8
            } else {
                0x00u8
            }),
{
    lemma_uniform_bands(image, inked, band_count(image));
}

/// A byte whose bits from `place` on are clear stays below the weight that
/// bit `place` would add, and setting that bit adds its weight.
proof fn lemma_set_bit(byte: u8, place: u8)
    by (bit_vector)
    requires
        place < 8,
        byte & (0xFFu8 >> place) == 0,
    ensures
        (byte | (1u8 << ((7u8 - place) as u8))) == byte + (1u8 << ((7u8 - place) as u8)),
        (byte | (1u8 << ((7u8 - place) as u8))) & (0xFFu8 >> (place + 1u8)) == 0,
        byte & (0xFFu8 >> (place + 1u8)) == 0,
        place == 0 ==> (1u8 << ((7u8 - place) as u8)) == 128,
        place == 1 ==> (1u8 << ((7u8 - place) as u8)) == 64,
        place == 2 ==> (1u8 << ((7u8 - place) as u8)) == 32,
        place == 3 ==> (1u8 << ((7u8 - place) as u8)) == 16,
        place == 4 ==> (1u8 << ((7u8 - place) as u8)) == 8,
        place == 5 ==> (1u8 << ((7u8 - place) as u8)) == 4,
        place == 6 ==> (1u8 << ((7u8 - place) as u8)) == 2,
        place == 7 ==> (1u8 << ((7u8 - place) as u8)) == 1,
{
}

/// The two low bytes of a 32-bit number, by mask and shift.
proof fn lemma_low_bytes(n: u32)
    by (bit_vector)
    ensures
        n & 0xFF == n % 256,
        (n >> 8) & 0xFF == n / 256 % 256,
        n & 0xFF < 256,
        (n >> 8) & 0xFF < 256,
{
}

/// Packs the eight pixels that begin at column `x` of row `y` into a byte,
/// the leftmost pixel in the most significant bit.
pub fn pack_byte(image: &RgbImage, x: u32, y: u32) -> (byte: u8)
    requires
        x + 8 <= image@.width,
        y < image@.height,
    ensures
        byte == packed_byte(image@, x as int, y as int),
{
    let width: u32 = image.width();
    let mut byte: u8 = 0;
    let mut place: u8 = 0;
    assert(0u8 & (0xFFu8 >> 0u8) == 0) by (bit_vector);
    while place < 8
        invariant
            place <= 8,
            x + 8 <= image@.width == width,
            y < image@.height,
            byte == packed_bits(image@, x as int, y as int, place as nat),
            place < 8 ==> byte & (0xFFu8 >> place) == 0,
        decreases 8 - place,
    {
        proof {
            lemma_set_bit(byte, place);
        }
        if ink(image.pixel(x + place as u32, y)) {
            byte |= 1u8 << (7u8 - place);
        }
        place += 1;
    }
    byte
}

/// Appends to `out` the bytes of band `band` of `image`.
fn push_band(out: &mut Vec<u8>, image: &RgbImage, band: u32)
    requires
        band < band_count(image@),
    ensures
        final(out)@ == old(out)@ + band_row(image@, band as int),
{
    let width: u32 = image.width();
    let height: u32 = image.height();
    let columns: u32 = width / 8;
    let y: u32 = band * 8;
    let mut column: u32 = 0;
    while column < columns
        invariant
            column <= columns == row_bytes(image@),
            columns == width / 8,
            width == image@.width,
            y == 8 * band,
            y < image@.height,
            out@ == old(out)@ + band_row(image@, band as int).take(column as int),
        decreases columns - column,
    {
        let byte = pack_byte(image, column * 8, y);
        out.push(byte);
        column += 1;
        assert(band_row(image@, band as int).take(column as int) == band_row(
            image@,
            band as int,
        ).take(column - 1).push(byte));
    }
    assert(band_row(image@, band as int).take(columns as int) == band_row(image@, band as int));
}

/// The raster bit-image command for `image`: the header with the size of the
/// bitmap, then one row of bytes for each band of eight rows.
pub fn rasterize(image: &RgbImage) -> (out: Vec<u8>)
    ensures
        out@ == raster_command(image@),
{
    let width: u32 = image.width();
    let height: u32 = image.height();
    let columns: u32 = width / 8;
    let rows: u32 = height / 8;
    let mut out: Vec<u8> = Vec::new();
    out.push(0x1D);
    out.push(0x76);
    out.push(0x30);
    out.push(0x00);
    proof {
        lemma_low_bytes(columns);
        lemma_low_bytes(height);
    }
    out.push((columns & 0xFF) as u8);
    out.push(((columns >> 8) & 0xFF) as u8);
    out.push((height & 0xFF) as u8);
    out.push(((height >> 8) & 0xFF) as u8);
    assert(out@ == raster_header(image@));
    let mut band: u32 = 0;
    while band < rows
        invariant
            band <= rows == band_count(image@),
            out@ == raster_header(image@) + bands(image@, band as nat),
        decreases rows - band,
    {
        push_band(&mut out, image, band);
        band += 1;
    }
    out
}

} // verus!
