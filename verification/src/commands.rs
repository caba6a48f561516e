//! The fixed commands of the wire format, as byte sequences.

use vstd::prelude::*;

verus! {

/// `ESC @`: puts the printer into its initial state.
pub open spec fn reset_command() -> Seq<u8> {
    seq![0x1Bu8, 0x40u8]
}

/// `GS V 0`: partial cut.
pub open spec fn cut_command() -> Seq<u8> {
    seq![0x1Du8, 0x56u8, 0x00u8]
}

/// `ESC d n`: feeds `lines` lines.
pub open spec fn feed_command(lines: u8) -> Seq<u8> {
    seq![0x1Bu8, 0x64u8, lines]
}

/// `GS h 64`: barcode height of 64 dots.
pub open spec fn barcode_height_command() -> Seq<u8> {
    seq![0x1Du8, 0x68u8, 0x40u8]
}

/// `GS w 2`: barcode module width of 2 dots.
pub open spec fn barcode_width_command() -> Seq<u8> {
    seq![0x1Du8, 0x77u8, 0x02u8]
}

/// Whether `stream` is a whole job: it begins with the reset command and ends
/// with the cut command.
pub open spec fn is_framed(stream: Seq<u8>) -> bool {
    &&& stream.len() >= reset_command().len() + cut_command().len()
    &&& stream.take(reset_command().len() as int) == reset_command()
    &&& stream.skip(stream.len() - cut_command().len()) == cut_command()
}

/// Whatever stands between the reset command and the cut command, the three
/// together are a whole job.
pub proof fn lemma_framed(body: Seq<u8>)
    ensures
        is_framed(reset_command() + body + cut_command()),
{
    let stream = reset_command() + body + cut_command();
    assert(stream.take(reset_command().len() as int) =~= reset_command());
    assert(stream.skip(stream.len() - cut_command().len()) =~= cut_command());
}

/// The byte that ends a line of text.
pub const LINE_FEED: u8 = 0x0A;

/// Lines fed after the text of a ticket.
pub const TICKET_FEED_LINES: u8 = 5;

/// Lines fed after each label.
pub const LABEL_FEED_LINES: u8 = 3;

/// Appends `ESC @` to `out`.
pub fn push_reset(out: &mut Vec<u8>)
    ensures
        final(out)@ == old(out)@ + reset_command(),
{
    out.push(0x1B);
    out.push(0x40);
}

/// Appends `GS V 0` to `out`.
pub fn push_cut(out: &mut Vec<u8>)
    ensures
        final(out)@ == old(out)@ + cut_command(),
{
    out.push(0x1D);
    out.push(0x56);
    out.push(0x00);
}

/// Appends `ESC d lines` to `out`.
pub fn push_feed(out: &mut Vec<u8>, lines: u8)
    ensures
        final(out)@ == old(out)@ + feed_command(lines),
{
    out.push(0x1B);
    out.push(0x64);
    out.push(lines);
}

} // verus!
