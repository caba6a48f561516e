//! Native barcode commands.

use vstd::prelude::*;
use vstd::string::StringSliceAdditionalSpecFns;
use crate::bytes::append_prefix;

verus! {

/// Symbology selector of the native barcode command: CODE128.
pub const CODE128: u8 = 73;

/// The longest payload that the one-byte length field of the command admits.
pub const MAX_PAYLOAD: usize = 255;

/// How many bytes of a payload of `len` bytes are sent.
pub open spec fn sent_len(len: nat) -> nat {
    if len <= MAX_PAYLOAD { len } else { MAX_PAYLOAD as nat }
}

/// `GS k 73 n d1..dn`: the printer renders `payload`, cut to 255 bytes, as a
/// CODE128 symbol.
pub open spec fn code128_command(payload: Seq<u8>) -> Seq<u8> {
    seq![0x1Du8, 0x6Bu8, CODE128, sent_len(payload.len()) as u8] + payload.take(
        sent_len(payload.len()) as int,
    )
}

/// Frames the UTF-8 bytes of `data` as a native CODE128 command.
pub fn escpos_code128(data: &str) -> (out: Vec<u8>)
    ensures
        out@ == code128_command(data.spec_bytes()),
{
    let bytes = data.as_bytes();
    let n: usize = if bytes.len() <= MAX_PAYLOAD { bytes.len() } else { MAX_PAYLOAD };
    let mut out: Vec<u8> = Vec::with_capacity(4 + n);
    out.push(0x1D);
    out.push(0x6B);
    out.push(CODE128);
    out.push(n as u8);
    append_prefix(&mut out, bytes, n);
    out
}

} // verus!
