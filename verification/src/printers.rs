//! The printers that the operating system knows, read from what its tools
//! print.

use vstd::prelude::*;
use vstd::slice::slice_subrange;
use vstd::string::StringExecFns;
use crate::json::{parse_json, parsed_json, text_member, text_member_of, Json};
use crate::spooler::{push_argument, texts_of, Invocation, Platform};
use crate::text::{
    begins_with, chars_of, distance_to, scan_to, scan_word, starts_with, string_of, trim_bounds,
    trim_start, trimmed, word_len,
};

verus! {

/// A printer and its state.
#[derive(Debug)]
pub struct Printer {
    pub name: String,
    pub status: String,
}

/// The shapes of the texts in which printers are listed.
#[derive(Clone, Copy, Debug, PartialEq, Eq, Structural)]
pub enum ListFormat {
    /// What `lpstat -a` prints: each line begins with the name of a printer.
    Accepting,
    /// What `lpstat -p` prints: a line that begins with `printer` has the
    /// name of a printer as its second word.
    Printers,
    /// What `system_profiler SPPrintersDataType` prints: a line that begins,
    /// after its indentation, with `Name:` has the name of a printer after
    /// it, up to the next colon.
    Profile,
    /// One name on each line; lines that begin with `{` or `[` are none.
    Plain,
}

/// What a line that `lpstat -p` prints for a printer begins with.
pub open spec fn printer_label() -> Seq<char> {
    seq!['p', 'r', 'i', 'n', 't', 'e', 'r', ' ']
}

/// What a line that `system_profiler` prints for a name begins with.
pub open spec fn name_label() -> Seq<char> {
    seq!['N', 'a', 'm', 'e', ':']
}

/// The first word of `s`: what stands between the white space at its start
/// and the next white space.
pub open spec fn first_word(s: Seq<char>) -> Seq<char> {
    trim_start(s).take(word_len(trim_start(s)) as int)
}

/// What follows the first word of `s`.
pub open spec fn after_first_word(s: Seq<char>) -> Seq<char> {
    trim_start(s).skip(word_len(trim_start(s)) as int)
}

/// The second word of `s`.
pub open spec fn second_word(s: Seq<char>) -> Seq<char> {
    first_word(after_first_word(s))
}

/// What stands after the label `Name:` in `s`, up to the next colon, without
/// the white space around it.
pub open spec fn name_field(s: Seq<char>) -> Seq<char> {
    let rest = s.skip(name_label().len() as int);
    trimmed(rest.take(distance_to(rest, ':') as int))
}

/// `name` where it is a name, that is, not empty.
pub open spec fn some_name(name: Seq<char>) -> Option<Seq<char>> {
    if name.len() > 0 {
        Some(name)
    } else {
        None
    }
}

/// The name of the printer that the line `line` of a list in the format
/// `format` names, if it names one.
pub open spec fn name_in_line(format: ListFormat, line: Seq<char>) -> Option<Seq<char>> {
    match format {
        ListFormat::Accepting => some_name(first_word(line)),
        ListFormat::Printers => if begins_with(line, printer_label()) {
            some_name(second_word(line))
        } else {
            None
        },
        ListFormat::Profile => if begins_with(trimmed(line), name_label()) {
            some_name(name_field(trimmed(line)))
        } else {
            None
        },
        ListFormat::Plain => if trimmed(line).len() > 0 && trimmed(line)[0] != '{' && trimmed(
            line,
        )[0] != '[' {
            Some(trimmed(line))
        } else {
            None
        },
    }
}

/// The names of the printers that the list `text` names, line by line.
pub open spec fn names_in(format: ListFormat, text: Seq<char>) -> Seq<Seq<char>>
    decreases text.len(),
{
    let first = distance_to(text, '\n');
    let here = match name_in_line(format, text.take(first as int)) {
        Some(name) => seq![name],
        None => Seq::empty(),
    };
    if first >= text.len() {
        here
    } else {
        here + names_in(format, text.skip(first as int + 1))
    }
}

/// The names of `printers`.
pub open spec fn printer_names(printers: Seq<Printer>) -> Seq<Seq<char>> {
    printers.map_values(|printer: Printer| printer.name@)
}

/// The state that every listed printer is given.
pub open spec fn available() -> Seq<char> {
    "available"@
}

/// Where the first word of `line` lies in it.
fn first_word_bounds(line: &[char]) -> (bounds: (usize, usize))
    ensures
        bounds.0 <= bounds.1 <= line@.len(),
        first_word(line@) == line@.subrange(bounds.0 as int, bounds.1 as int),
        after_first_word(line@) == line@.skip(bounds.1 as int),
{
    let (start, _) = trim_bounds(line);
    let rest = slice_subrange(line, start, line.len());
    assert(rest@ == trim_start(line@));
    let length = scan_word(rest);
    assert(rest@.take(length as int) == line@.subrange(start as int, start + length));
    assert(rest@.skip(length as int) == line@.skip(start + length));
    (start, start + length)
}

/// Where the name of [`name_in_line`] lies in `line`.
pub fn name_bounds(format: ListFormat, line: &[char]) -> (r: Option<(usize, usize)>)
    ensures
        match r {
            Some((start, end)) => start <= end <= line@.len() && name_in_line(format, line@)
                == Some(line@.subrange(start as int, end as int)),
            None => name_in_line(format, line@) is None,
        },
{
    match format {
        ListFormat::Accepting => {
            let (start, end) = first_word_bounds(line);
            if start < end {
                Some((start, end))
            } else {
                None
            }
        },
        ListFormat::Printers => {
            let label: [char; 8] = ['p', 'r', 'i', 'n', 't', 'e', 'r', ' '];
            assert(label@ == printer_label());
            if !starts_with(line, label.as_slice()) {
                return None;
            }
            let (_, first_end) = first_word_bounds(line);
            let rest = slice_subrange(line, first_end, line.len());
            assert(rest@ == after_first_word(line@));
            let (start, end) = first_word_bounds(rest);
            assert(rest@.subrange(start as int, end as int) == line@.subrange(
                first_end + start,
                first_end + end,
            ));
            if start < end {
                Some((first_end + start, first_end + end))
            } else {
                None
            }
        },
        ListFormat::Profile => {
            let label: [char; 5] = ['N', 'a', 'm', 'e', ':'];
            assert(label@ == name_label());
            let (start, end) = trim_bounds(line);
            let inner = slice_subrange(line, start, end);
            if !starts_with(inner, label.as_slice()) {
                return None;
            }
            assert(name_label().len() == 5);
            let rest = slice_subrange(inner, 5, inner.len());
            assert(rest@ == inner@.skip(5));
            let colon = scan_to(rest, ':');
            let field = slice_subrange(rest, 0, colon);
            assert(field@ == rest@.take(colon as int));
            let (from, to) = trim_bounds(field);
            assert(field@.subrange(from as int, to as int) == line@.subrange(
                start + 5 + from,
                start + 5 + to,
            ));
            if from < to {
                Some((start + 5 + from, start + 5 + to))
            } else {
                None
            }
        },
        ListFormat::Plain => {
            let (start, end) = trim_bounds(line);
            if start < end && line[start] != '{' && line[start] != '[' {
                Some((start, end))
            } else {
                None
            }
        },
    }
}

/// The printers that the list `output`, in the format `format`, names: one
/// for each line that names a printer, in the order of the lines, each with
/// the state `available`.
pub fn printers_in(format: ListFormat, output: &str) -> (printers: Vec<Printer>)
    ensures
        printer_names(printers@) == names_in(format, output@),
        forall|i: int| 0 <= i < printers@.len() ==> (#[trigger] printers@[i]).status@ == available(),
{
    let chars = chars_of(output);
    let all = chars.as_slice();
    let len = all.len();
    let mut printers: Vec<Printer> = Vec::new();
    let mut at: usize = 0;
    assert(printer_names(printers@) =~= Seq::empty());
    assert(all@.skip(0) == all@);
    loop
        invariant
            at <= len == all@.len(),
            all@ == output@,
            names_in(format, output@) == printer_names(printers@) + names_in(
                format,
                all@.skip(at as int),
            ),
            forall|i: int|
                0 <= i < printers@.len() ==> (#[trigger] printers@[i]).status@ == available(),
        decreases len - at,
    {
        let rest = slice_subrange(all, at, len);
        assert(rest@ == all@.skip(at as int));
        let first = scan_to(rest, '\n');
        let line = slice_subrange(rest, 0, first);
        assert(line@ == rest@.take(first as int));
        let ghost before = printer_names(printers@);
        match name_bounds(format, line) {
            Some((start, end)) => {
                let name = string_of(slice_subrange(line, start, end));
                printers.push(Printer { name, status: String::from_str("available") });
                assert(printer_names(printers@) =~= before.push(
                    line@.subrange(start as int, end as int),
                ));
            },
            None => {},
        }
        if first >= rest.len() {
            assert(names_in(format, output@) == printer_names(printers@));
            return printers;
        }
        assert(rest@.skip(first + 1) == all@.skip(at + first + 1));
        at = at + first + 1;
    }
}

/// The key under which a printer has its name in JSON.
pub open spec fn name_key() -> Seq<char> {
    seq!['N', 'a', 'm', 'e']
}

/// The names of the printers among `items`: of each item that is an object
/// with a text under `Name`, that text.
pub open spec fn names_of_items(items: Seq<Json>) -> Seq<Seq<char>>
    decreases items.len(),
{
    if items.len() == 0 {
        Seq::empty()
    } else {
        match text_member(items.last(), name_key()) {
            Some(name) => names_of_items(items.drop_last()).push(name),
            None => names_of_items(items.drop_last()),
        }
    }
}

/// The names of the printers in `json`: of a list, those of its items; of
/// any other value, its own, if it has one.
pub open spec fn names_in_json(json: Json) -> Seq<Seq<char>> {
    match json {
        Json::List(items) => names_of_items(items@),
        _ => match text_member(json, name_key()) {
            Some(name) => seq![name],
            None => Seq::empty(),
        },
    }
}

/// The names of the printers that `text` names: as JSON where it is JSON,
/// and line by line where it is not.
pub open spec fn names_in_json_or_lines(text: Seq<char>) -> Seq<Seq<char>> {
    match parsed_json(text) {
        Some(json) => names_in_json(json),
        None => names_in(ListFormat::Plain, text),
    }
}

/// Appends to `printers` the printer that `json` names, if it names one.
fn push_named(printers: &mut Vec<Printer>, json: &Json)
    requires
        forall|i: int|
            0 <= i < old(printers)@.len() ==> (#[trigger] old(printers)@[i]).status@
                == available(),
    ensures
        forall|i: int|
            0 <= i < final(printers)@.len() ==> (#[trigger] final(printers)@[i]).status@
                == available(),
        printer_names(final(printers)@) == match text_member(*json, name_key()) {
            Some(name) => printer_names(old(printers)@).push(name),
            None => printer_names(old(printers)@),
        },
{
    let key: [char; 4] = ['N', 'a', 'm', 'e'];
    assert(key@ == name_key());
    match text_member_of(json, key.as_slice()) {
        Some(name) => {
            printers.push(
                Printer {
                    name: String::from_str(name.as_str()),
                    status: String::from_str("available"),
                },
            );
            assert(printer_names(printers@) =~= printer_names(old(printers)@).push(name@));
        },
        None => {},
    }
}

/// The printers that `json` names, see [`names_in_json`], each with the
/// state `available`.
pub fn printers_in_json(json: &Json) -> (printers: Vec<Printer>)
    ensures
        printer_names(printers@) == names_in_json(*json),
        forall|i: int| 0 <= i < printers@.len() ==> (#[trigger] printers@[i]).status@ == available(),
{
    let mut printers: Vec<Printer> = Vec::new();
    assert(printer_names(printers@) =~= Seq::empty());
    match json {
        Json::List(items) => {
            let count = items.len();
            let mut i: usize = 0;
            while i < count
                invariant
                    i <= count == items@.len(),
                    printer_names(printers@) == names_of_items(items@.take(i as int)),
                    forall|k: int|
                        0 <= k < printers@.len() ==> (#[trigger] printers@[k]).status@
                            == available(),
                decreases count - i,
            {
                proof {
                    assert(items@.take(i + 1).drop_last() == items@.take(i as int));
                    assert(items@.take(i + 1).last() == items@[i as int]);
                }
                push_named(&mut printers, &items[i]);
                i += 1;
            }
            assert(items@.take(count as int) == items@);
        },
        _ => {
            push_named(&mut printers, json);
        },
    }
    printers
}

/// The printers that `output` names, as JSON where it is JSON and line by
/// line where it is not, see [`names_in_json_or_lines`].
pub fn printers_in_json_or_lines(output: &str) -> (printers: Vec<Printer>)
    ensures
        printer_names(printers@) == names_in_json_or_lines(output@),
        forall|i: int| 0 <= i < printers@.len() ==> (#[trigger] printers@[i]).status@ == available(),
{
    match parse_json(output) {
        Ok(json) => printers_in_json(&json),
        Err(_) => printers_in(ListFormat::Plain, output),
    }
}

/// A way to have the operating system list its printers.
#[derive(Clone, Copy, Debug, PartialEq, Eq, Structural)]
pub enum Listing {
    /// `lpstat -a`
    LpstatAccepting,
    /// `lpstat -p`
    LpstatPrinters,
    /// `system_profiler SPPrintersDataType`
    SystemProfiler,
    /// `Get-Printer` in PowerShell, as JSON
    GetPrinter,
}

/// The listings that are tried on `platform`, in their order.
pub open spec fn listings_of(platform: Platform) -> Seq<Listing> {
    match platform {
        Platform::MacOs => seq![
            Listing::LpstatAccepting,
            Listing::LpstatPrinters,
            Listing::SystemProfiler,
        ],
        Platform::Linux => seq![Listing::LpstatPrinters],
        Platform::Windows => seq![Listing::GetPrinter],
    }
}

/// The listing to try next on `platform`, after `tried` listings that
/// found `found` printers between them: the next in order as long as no
/// printer has been found, and none once one has been found or all have
/// been tried.
pub fn next_listing(platform: Platform, tried: usize, found: usize) -> (r: Option<Listing>)
    ensures
        r == (if found == 0 && tried < listings_of(platform).len() {
            Some(listings_of(platform)[tried as int])
        } else {
            None
        }),
{
    if found != 0 {
        return None;
    }
    match platform {
        Platform::MacOs => if tried == 0 {
            Some(Listing::LpstatAccepting)
        } else if tried == 1 {
            Some(Listing::LpstatPrinters)
        } else if tried == 2 {
            Some(Listing::SystemProfiler)
        } else {
            None
        },
        Platform::Linux => if tried == 0 {
            Some(Listing::LpstatPrinters)
        } else {
            None
        },
        Platform::Windows => if tried == 0 {
            Some(Listing::GetPrinter)
        } else {
            None
        },
    }
}

/// The program that makes the listing `listing`.
pub open spec fn listing_program(listing: Listing) -> Seq<char> {
    match listing {
        Listing::LpstatAccepting => "lpstat"@,
        Listing::LpstatPrinters => "lpstat"@,
        Listing::SystemProfiler => "system_profiler"@,
        Listing::GetPrinter => "powershell"@,
    }
}

/// The arguments with which it is run.
pub open spec fn listing_arguments(listing: Listing) -> Seq<Seq<char>> {
    match listing {
        Listing::LpstatAccepting => seq!["-a"@],
        Listing::LpstatPrinters => seq!["-p"@],
        Listing::SystemProfiler => seq!["SPPrintersDataType"@],
        Listing::GetPrinter => seq![
            "-Command"@,
            "Get-Printer | Select-Object Name, PrinterStatus | ConvertTo-Json -Compress"@,
        ],
    }
}

/// The command that makes the listing `listing`.
pub fn listing_command(listing: Listing) -> (command: Invocation)
    ensures
        command.program@ == listing_program(listing),
        texts_of(command.arguments@) == listing_arguments(listing),
{
    let mut arguments: Vec<String> = Vec::new();
    assert(texts_of(arguments@) =~= Seq::empty());
    match listing {
        Listing::LpstatAccepting => {
            push_argument(&mut arguments, "-a");
            Invocation { program: String::from_str("lpstat"), arguments }
        },
        Listing::LpstatPrinters => {
            push_argument(&mut arguments, "-p");
            Invocation { program: String::from_str("lpstat"), arguments }
        },
        Listing::SystemProfiler => {
            push_argument(&mut arguments, "SPPrintersDataType");
            Invocation { program: String::from_str("system_profiler"), arguments }
        },
        Listing::GetPrinter => {
            push_argument(&mut arguments, "-Command");
            push_argument(
                &mut arguments,
                "Get-Printer | Select-Object Name, PrinterStatus | ConvertTo-Json -Compress",
            );
            Invocation { program: String::from_str("powershell"), arguments }
        },
    }
}

/// The names of the printers in what the listing `listing` printed.
pub open spec fn listed_names(listing: Listing, output: Seq<char>) -> Seq<Seq<char>> {
    match listing {
        Listing::LpstatAccepting => names_in(ListFormat::Accepting, output),
        Listing::LpstatPrinters => names_in(ListFormat::Printers, output),
        Listing::SystemProfiler => names_in(ListFormat::Profile, output),
        Listing::GetPrinter => names_in_json_or_lines(output),
    }
}

/// The printers in `output`, which is what the listing `listing` printed.
pub fn listed_printers(listing: Listing, output: &str) -> (printers: Vec<Printer>)
    ensures
        printer_names(printers@) == listed_names(listing, output@),
        forall|i: int| 0 <= i < printers@.len() ==> (#[trigger] printers@[i]).status@ == available(),
{
    match listing {
        Listing::LpstatAccepting => printers_in(ListFormat::Accepting, output),
        Listing::LpstatPrinters => printers_in(ListFormat::Printers, output),
        Listing::SystemProfiler => printers_in(ListFormat::Profile, output),
        Listing::GetPrinter => printers_in_json_or_lines(output),
    }
}

} // verus!
