//! The command stream of a ticket: a text with an optional logo above it.

use vstd::prelude::*;
use crate::bytes::append_all;
use crate::commands::{
    cut_command, feed_command, is_framed, lemma_framed, push_cut, push_feed, push_reset,
    reset_command, TICKET_FEED_LINES,
};
use crate::embedded::{embedded_raster, logo_to_escpos};
use crate::transliterate::{to_ascii_thermal, transliterated};

verus! {

/// The characters of an optional text.
pub open spec fn optional_text(text: Option<&str>) -> Option<Seq<char>> {
    match text {
        Some(t) => Some(t@),
        None => None,
    }
}

/// What the logo of a ticket adds to the stream: its raster command where
/// there is a logo, it is not empty and it can be turned into one; nothing
/// otherwise.
pub open spec fn logo_block(logo: Option<Seq<char>>) -> Seq<u8> {
    match logo {
        Some(text) => if text.len() > 0 {
            match embedded_raster(text) {
                Ok(command) => command,
                Err(_) => Seq::empty(),
            }
        } else {
            Seq::empty()
        },
        None => Seq::empty(),
    }
}

/// A ticket with the commands `logo` above its text: reset, logo, text, a
/// feed of five lines, cut.
pub open spec fn ticket_around(logo: Seq<u8>, text: Seq<char>) -> Seq<u8> {
    reset_command() + logo + transliterated(text) + feed_command(TICKET_FEED_LINES)
        + cut_command()
}

/// The command stream of the ticket with text `text` and logo `logo`.
pub open spec fn ticket_stream(text: Seq<char>, logo: Option<Seq<char>>) -> Seq<u8> {
    ticket_around(logo_block(logo), text)
}

/// A ticket is a whole job, and all of its text is in it.
pub proof fn lemma_ticket_framed(logo: Seq<u8>, text: Seq<char>)
    ensures
        is_framed(ticket_around(logo, text)),
        ticket_around(logo, text).len() == 8 + logo.len() + text.len(),
{
    let body = logo + transliterated(text) + feed_command(TICKET_FEED_LINES);
    lemma_framed(body);
    assert(ticket_around(logo, text) =~= reset_command() + body + cut_command());
}

/// The ticket with the commands `logo` above the text `text`.
pub fn assemble_ticket(logo: &[u8], text: &str) -> (out: Vec<u8>)
    ensures
        out@ == ticket_around(logo@, text@),
        is_framed(out@),
        out@.len() == 8 + logo@.len() + text@.len(),
{
    let mut out: Vec<u8> = Vec::new();
    push_reset(&mut out);
    append_all(&mut out, logo);
    let printable = to_ascii_thermal(text);
    append_all(&mut out, printable.as_slice());
    push_feed(&mut out, TICKET_FEED_LINES);
    push_cut(&mut out);
    proof {
        lemma_ticket_framed(logo@, text@);
    }
    out
}

/// What [`logo_block`] is, once the logo has been tried.
pub fn logo_commands(logo: Option<&str>) -> (out: Vec<u8>)
    ensures
        out@ == logo_block(optional_text(logo)),
{
    match logo {
        Some(text) => {
            if text.is_empty() {
                Vec::new()
            } else {
                match logo_to_escpos(text) {
                    Ok(command) => command,
                    Err(_) => Vec::new(),
                }
            }
        },
        None => Vec::new(),
    }
}

/// The command stream of a ticket. A logo that cannot be printed is left
/// out and the ticket is printed without it: there is no text and no logo for
/// which this fails, and the stream is always a whole job.
pub fn ticket_commands(ticket_text: &str, ticket_logo_base64: Option<&str>) -> (out: Vec<u8>)
    ensures
        out@ == ticket_stream(ticket_text@, optional_text(ticket_logo_base64)),
        is_framed(out@),
{
    let logo = logo_commands(ticket_logo_base64);
    assemble_ticket(logo.as_slice(), ticket_text)
}

} // verus!
