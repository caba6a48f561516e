//! The command stream of a batch of product labels.

use vstd::prelude::*;
use vstd::utf8::encode_utf8;
use crate::barcode::{code128_command, escpos_code128};
use crate::bytes::append_all;
use crate::commands::{
    barcode_height_command, barcode_width_command, cut_command, feed_command, is_framed,
    lemma_framed, push_cut, push_feed, push_reset, reset_command, LABEL_FEED_LINES, LINE_FEED,
};
use crate::embedded::{barcode_image_to_escpos, embedded_raster};

verus! {

/// One label: the name of a product under its barcode. The barcode is given
/// as a value that the printer renders itself, as a picture in base64, as
/// both or not at all.
#[derive(Clone, Debug)]
pub struct BarcodeLabel {
    pub barcode_image_base64: Option<String>,
    pub barcode_value: Option<String>,
    pub product_name: String,
}

/// What a [`BarcodeLabel`] holds.
pub struct LabelView {
    pub barcode_image: Option<Seq<char>>,
    pub barcode_value: Option<Seq<char>>,
    pub product_name: Seq<char>,
}

/// The characters of an optional text.
pub open spec fn optional_chars(text: Option<String>) -> Option<Seq<char>> {
    match text {
        Some(t) => Some(t@),
        None => None,
    }
}

impl View for BarcodeLabel {
    type V = LabelView;

    open spec fn view(&self) -> LabelView {
        LabelView {
            barcode_image: optional_chars(self.barcode_image_base64),
            barcode_value: optional_chars(self.barcode_value),
            product_name: self.product_name@,
        }
    }
}

/// Whether a text is given and is not empty.
pub open spec fn is_given(text: Option<Seq<char>>) -> bool {
    text matches Some(t) && t.len() > 0
}

/// The commands that make the printer render `value` itself: height of the
/// bars, width of a module, the CODE128 command.
pub open spec fn native_barcode(value: Seq<char>) -> Seq<u8> {
    barcode_height_command() + barcode_width_command() + code128_command(encode_utf8(value))
}

/// The barcode of a label. A value that is given is rendered by the printer.
/// Without one, a picture that is given is printed, or nothing where it
/// cannot be turned into a raster command. Without either there is no
/// barcode.
pub open spec fn barcode_block(label: LabelView) -> Seq<u8> {
    if is_given(label.barcode_value) {
        native_barcode(label.barcode_value->0)
    } else if is_given(label.barcode_image) {
        match embedded_raster(label.barcode_image->0) {
            Ok(command) => command,
            Err(_) => Seq::empty(),
        }
    } else {
        Seq::empty()
    }
}

/// What follows the barcode of a label: the name of the product as a line of
/// its own, and a feed of three lines.
pub open spec fn name_block(product_name: Seq<char>) -> Seq<u8> {
    encode_utf8(product_name) + seq![LINE_FEED] + feed_command(LABEL_FEED_LINES)
}

/// The commands of one label.
pub open spec fn label_block(label: LabelView) -> Seq<u8> {
    barcode_block(label) + name_block(label.product_name)
}

/// The commands of `labels`, one label after the other in the order given.
pub open spec fn label_blocks(labels: Seq<LabelView>) -> Seq<u8>
    decreases labels.len(),
{
    if labels.len() == 0 {
        Seq::empty()
    } else {
        label_blocks(labels.drop_last()) + label_block(labels.last())
    }
}

/// The command stream of a batch: one reset, the labels, one cut.
pub open spec fn label_batch_stream(labels: Seq<LabelView>) -> Seq<u8> {
    reset_command() + label_blocks(labels) + cut_command()
}

/// What each of `labels` holds.
pub open spec fn label_views(labels: Seq<BarcodeLabel>) -> Seq<LabelView> {
    labels.map_values(|label: BarcodeLabel| label@)
}

/// A batch is a whole job, whatever its labels; an empty batch is the reset
/// command and the cut command and nothing else.
pub proof fn lemma_label_batch_framed(labels: Seq<LabelView>)
    ensures
        is_framed(label_batch_stream(labels)),
        labels.len() == 0 ==> label_batch_stream(labels) == reset_command() + cut_command(),
{
    lemma_framed(label_blocks(labels));
    if labels.len() == 0 {
        assert(label_batch_stream(labels) =~= reset_command() + cut_command());
    }
}

/// A batch with one label more has the commands of that label after those of
/// the others: labels are neither reordered nor merged.
pub proof fn lemma_label_blocks_push(labels: Seq<LabelView>, label: LabelView)
    ensures
        label_blocks(labels.push(label)) == label_blocks(labels) + label_block(label),
{
    assert(labels.push(label).drop_last() == labels);
}

/// Appends to `out` the commands that make the printer render `value`.
pub fn push_native_barcode(out: &mut Vec<u8>, value: &str)
    ensures
        final(out)@ == old(out)@ + native_barcode(value@),
{
    out.push(0x1D);
    out.push(0x68);
    out.push(0x40);
    out.push(0x1D);
    out.push(0x77);
    out.push(0x02);
    let command = escpos_code128(value);
    append_all(out, command.as_slice());
}

/// Appends to `out` the name of a product and the feed after it.
pub fn push_name(out: &mut Vec<u8>, product_name: &str)
    ensures
        final(out)@ == old(out)@ + name_block(product_name@),
{
    append_all(out, product_name.as_bytes());
    out.push(LINE_FEED);
    push_feed(out, LABEL_FEED_LINES);
}

/// The barcode of `label`, see [`barcode_block`].
pub fn barcode_commands(label: &BarcodeLabel) -> (out: Vec<u8>)
    ensures
        out@ == barcode_block(label@),
{
    let mut out: Vec<u8> = Vec::new();
    match &label.barcode_value {
        Some(value) => {
            if !value.as_str().is_empty() {
                push_native_barcode(&mut out, value.as_str());
                return out;
            }
        },
        None => {},
    }
    match &label.barcode_image_base64 {
        Some(picture) => {
            if !picture.as_str().is_empty() {
                match barcode_image_to_escpos(picture.as_str()) {
                    Ok(command) => {
                        return command;
                    },
                    Err(_) => {},
                }
            }
        },
        None => {},
    }
    out
}

/// Appends to `out` the commands of `label`.
pub fn push_label(out: &mut Vec<u8>, label: &BarcodeLabel)
    ensures
        final(out)@ == old(out)@ + label_block(label@),
{
    let barcode = barcode_commands(label);
    append_all(out, barcode.as_slice());
    push_name(out, label.product_name.as_str());
}

/// The command stream of a batch of labels: reset, each label in the order
/// given, one cut at the end. There is no batch for which this fails. A
/// barcode picture that cannot be printed is left out and its label is
/// printed without it.
pub fn label_batch_commands(labels: &[BarcodeLabel]) -> (out: Vec<u8>)
    ensures
        out@ == label_batch_stream(label_views(labels@)),
        is_framed(out@),
{
    let mut out: Vec<u8> = Vec::new();
    push_reset(&mut out);
    let count = labels.len();
    let mut i: usize = 0;
    while i < count
        invariant
            i <= count == labels@.len(),
            out@ == reset_command() + label_blocks(label_views(labels@).take(i as int)),
        decreases count - i,
    {
        push_label(&mut out, &labels[i]);
        proof {
            let views = label_views(labels@);
            assert(views.take(i + 1) == views.take(i as int).push(labels@[i as int]@));
            lemma_label_blocks_push(views.take(i as int), labels@[i as int]@);
        }
        i += 1;
    }
    push_cut(&mut out);
    proof {
        let views = label_views(labels@);
        assert(views.take(count as int) == views);
        lemma_label_batch_framed(views);
    }
    out
}

} // verus!
