//! What is handed to the print spooler of each platform: the program and its
//! arguments, the name of the file that carries the stream, and the texts of
//! the errors that a job can end with.

use vstd::prelude::*;
use vstd::string::{StrSliceExecFns, StringExecFns};
use crate::text::{chars_of, push_char, trim_bounds, trimmed};

verus! {

/// The operating systems whose spooler is known.
#[derive(Clone, Copy, Debug, PartialEq, Eq, Structural)]
pub enum Platform {
    MacOs,
    Linux,
    Windows,
}

/// The two kinds of job.
#[derive(Clone, Copy, Debug, PartialEq, Eq, Structural)]
pub enum JobKind {
    Ticket,
    Labels,
}

/// How the spooler gets the stream.
#[derive(Clone, Copy, Debug, PartialEq, Eq, Structural)]
pub enum Handoff {
    /// The stream is written to a file, whose path the spooler is given and
    /// which is removed afterwards, however the spooler ended.
    TempFile,
    /// The stream is written to the standard input of the spooler.
    StandardInput,
}

/// A step of handing a job to the spooler, in the order in which they are
/// taken.
#[derive(Clone, Copy, Debug, PartialEq, Eq, Structural)]
pub enum Stage {
    /// Creating the file that carries the stream.
    CreateFile,
    /// Writing the stream to that file.
    WriteFile,
    /// Flushing that file to the disk.
    SyncFile,
    /// Starting the spooler.
    Launch,
    /// Writing the stream to the standard input of the spooler.
    Feed,
    /// Waiting for the spooler to end.
    Wait,
}

/// A program with its arguments.
#[derive(Debug)]
pub struct Invocation {
    pub program: String,
    pub arguments: Vec<String>,
}

/// The characters of each text of `texts`.
pub open spec fn texts_of(texts: Seq<String>) -> Seq<Seq<char>> {
    texts.map_values(|text: String| text@)
}

/// How the spooler of `platform` gets the stream.
pub open spec fn handoff_of(platform: Platform) -> Handoff {
    match platform {
        Platform::MacOs => Handoff::TempFile,
        Platform::Linux => Handoff::StandardInput,
        Platform::Windows => Handoff::TempFile,
    }
}

/// How the spooler of `platform` gets the stream.
pub fn handoff(platform: Platform) -> (r: Handoff)
    ensures
        r == handoff_of(platform),
{
    match platform {
        Platform::MacOs => Handoff::TempFile,
        Platform::Linux => Handoff::StandardInput,
        Platform::Windows => Handoff::TempFile,
    }
}

/// The print queue that `printer_name` names: the name without the white
/// space around it, or no queue, which means the default one, where nothing
/// is left of the name.
pub open spec fn queue_of(printer_name: Seq<char>) -> Option<Seq<char>> {
    if trimmed(printer_name).len() == 0 {
        None
    } else {
        Some(trimmed(printer_name))
    }
}

/// The print queue that `printer_name` names, see [`queue_of`].
pub fn queue(printer_name: &str) -> (r: Option<&str>)
    ensures
        match r {
            Some(name) => queue_of(printer_name@) == Some(name@),
            None => queue_of(printer_name@) is None,
        },
{
    let chars = chars_of(printer_name);
    let (start, end) = trim_bounds(chars.as_slice());
    if start == end {
        None
    } else {
        Some(printer_name.substring_char(start, end))
    }
}

/// The character for the digit `d`.
pub open spec fn digit_char(d: nat) -> char {
    ('0' as u8 + d) as char
}

/// `n` in decimal digits, without leading zeros.
pub open spec fn decimal(n: nat) -> Seq<char>
    decreases n,
{
    if n < 10 {
        seq![digit_char(n)]
    } else {
        decimal(n / 10).push(digit_char(n % 10))
    }
}

/// Appends `n` in decimal digits to `out`.
pub fn push_decimal(out: &mut String, n: u128)
    ensures
        final(out)@ == old(out)@ + decimal(n as nat),
    decreases n,
{
    if n >= 10 {
        push_decimal(out, n / 10);
    }
    let d: u8 = (n % 10) as u8;
    push_char(out, (48u8 + d) as char);
}

/// `text` with each apostrophe written twice, which is how PowerShell takes
/// an apostrophe inside a text between apostrophes.
pub open spec fn doubled_apostrophes(text: Seq<char>) -> Seq<char>
    decreases text.len(),
{
    if text.len() == 0 {
        Seq::empty()
    } else if text.last() == '\'' {
        doubled_apostrophes(text.drop_last()).push('\'').push('\'')
    } else {
        doubled_apostrophes(text.drop_last()).push(text.last())
    }
}

/// Appends `text` to `out`, each apostrophe written twice.
pub fn push_doubled_apostrophes(out: &mut String, text: &str)
    ensures
        final(out)@ == old(out)@ + doubled_apostrophes(text@),
{
    for c in it: text.chars()
        invariant
            it.seq() == text@,
            out@ == old(out)@ + doubled_apostrophes(text@.take(it.index() as int)),
    {
        proof {
            let before = text@.take(it.index() as int);
            let now = text@.take(it.index() + 1);
            assert(now.drop_last() == before);
            assert(now.last() == c);
        }
        if c == '\'' {
            push_char(out, '\'');
        }
        push_char(out, c);
    }
    assert(text@.take(text@.len() as int) == text@);
}

/// What the name of the file that carries a job of kind `kind` begins with.
pub open spec fn file_stem(kind: JobKind) -> Seq<char> {
    match kind {
        JobKind::Ticket => "pos_ticket_"@,
        JobKind::Labels => "pos_barcodes_"@,
    }
}

/// What the name of the file that carries a job ends with on `platform`.
pub open spec fn file_extension(platform: Platform) -> Seq<char> {
    match platform {
        Platform::Windows => ".txt"@,
        Platform::MacOs => ".bin"@,
        Platform::Linux => ".bin"@,
    }
}

/// The name of the file that carries a job: it holds `millis`, the time in
/// milliseconds at which the job is handed over, so that two jobs at work at
/// once do not write to one file.
pub open spec fn temp_file_name_of(platform: Platform, kind: JobKind, millis: nat) -> Seq<char> {
    file_stem(kind) + decimal(millis) + file_extension(platform)
}

/// The name of the file that carries a job, see [`temp_file_name_of`].
pub fn temp_file_name(platform: Platform, kind: JobKind, millis: u128) -> (name: String)
    ensures
        name@ == temp_file_name_of(platform, kind, millis as nat),
{
    let mut name = match kind {
        JobKind::Ticket => String::from_str("pos_ticket_"),
        JobKind::Labels => String::from_str("pos_barcodes_"),
    };
    push_decimal(&mut name, millis);
    match platform {
        Platform::Windows => name.append(".txt"),
        Platform::MacOs => name.append(".bin"),
        Platform::Linux => name.append(".bin"),
    }
    name
}

/// The program that is the spooler's front on `platform`.
pub open spec fn program_of(platform: Platform) -> Seq<char> {
    match platform {
        Platform::MacOs => "lp"@,
        Platform::Linux => "lp"@,
        Platform::Windows => "powershell"@,
    }
}

/// The arguments that make `lp` print to `queue`: none for the default
/// queue.
pub open spec fn queue_arguments(queue: Option<Seq<char>>) -> Seq<Seq<char>> {
    match queue {
        Some(name) => seq!["-d"@, name],
        None => Seq::empty(),
    }
}

/// The PowerShell script that prints the file `path` as it is, to `queue` or
/// to the default printer.
pub open spec fn print_script(queue: Option<Seq<char>>, path: Seq<char>) -> Seq<char> {
    "Get-Content -Path '"@ + path + "' -Raw | Out-Printer"@ + match queue {
        Some(name) => " -Name '"@ + doubled_apostrophes(name) + "'"@,
        None => Seq::empty(),
    }
}

/// The arguments with which the spooler prints a stream in raw mode. On
/// macOS it reads the file `path`, on Linux its standard input, and on
/// Windows a script sends the file `path` to the printer.
pub open spec fn arguments_of(
    platform: Platform,
    queue: Option<Seq<char>>,
    path: Seq<char>,
) -> Seq<Seq<char>> {
    match platform {
        Platform::MacOs => queue_arguments(queue) + seq![
            "-o"@,
            "raw"@,
            "-o"@,
            "document-format=application/octet-stream"@,
            path,
        ],
        Platform::Linux => queue_arguments(queue) + seq!["-o"@, "raw"@],
        Platform::Windows => seq!["-NoProfile"@, "-Command"@, print_script(queue, path)],
    }
}

/// Appends the text `text` to `arguments`.
pub fn push_argument(arguments: &mut Vec<String>, text: &str)
    ensures
        texts_of(final(arguments)@) == texts_of(old(arguments)@).push(text@),
{
    arguments.push(String::from_str(text));
    assert(texts_of(arguments@) =~= texts_of(old(arguments)@).push(text@));
}

/// The arguments that make `lp` print to the queue that `printer_name`
/// names.
fn lp_queue_arguments(printer_name: &str) -> (arguments: Vec<String>)
    ensures
        texts_of(arguments@) == queue_arguments(queue_of(printer_name@)),
{
    let mut arguments: Vec<String> = Vec::new();
    assert(texts_of(arguments@) =~= Seq::empty());
    match queue(printer_name) {
        Some(name) => {
            push_argument(&mut arguments, "-d");
            push_argument(&mut arguments, name);
        },
        None => {},
    }
    arguments
}

/// The script of [`print_script`] for the queue that `printer_name` names.
fn powershell_script(printer_name: &str, path: &str) -> (script: String)
    ensures
        script@ == print_script(queue_of(printer_name@), path@),
{
    let mut script = String::from_str("Get-Content -Path '");
    script.append(path);
    script.append("' -Raw | Out-Printer");
    match queue(printer_name) {
        Some(name) => {
            script.append(" -Name '");
            push_doubled_apostrophes(&mut script, name);
            script.append("'");
        },
        None => {},
    }
    script
}

/// The command that hands a job to the spooler of `platform`, for the
/// printer `printer_name` (any text that is empty or white space means the
/// default printer) and the file `path`, which is not looked at where the
/// stream goes to standard input.
pub fn spooler_command(platform: Platform, printer_name: &str, path: &str) -> (command:
    Invocation)
    ensures
        command.program@ == program_of(platform),
        texts_of(command.arguments@) == arguments_of(platform, queue_of(printer_name@), path@),
{
    match platform {
        Platform::MacOs => {
            let mut arguments = lp_queue_arguments(printer_name);
            push_argument(&mut arguments, "-o");
            push_argument(&mut arguments, "raw");
            push_argument(&mut arguments, "-o");
            push_argument(&mut arguments, "document-format=application/octet-stream");
            push_argument(&mut arguments, path);
            Invocation { program: String::from_str("lp"), arguments }
        },
        Platform::Linux => {
            let mut arguments = lp_queue_arguments(printer_name);
            push_argument(&mut arguments, "-o");
            push_argument(&mut arguments, "raw");
            Invocation { program: String::from_str("lp"), arguments }
        },
        Platform::Windows => {
            let script = powershell_script(printer_name, path);
            let mut arguments: Vec<String> = Vec::new();
            assert(texts_of(arguments@) =~= Seq::empty());
            push_argument(&mut arguments, "-NoProfile");
            push_argument(&mut arguments, "-Command");
            push_argument(&mut arguments, script.as_str());
            Invocation { program: String::from_str("powershell"), arguments }
        },
    }
}

/// What the error begins with when starting the spooler fails.
pub open spec fn launch_prefix(platform: Platform, kind: JobKind) -> Seq<char> {
    match platform {
        Platform::MacOs => "lp failed: "@,
        Platform::Linux => "lp spawn: "@,
        Platform::Windows => match kind {
            JobKind::Ticket => "Failed to run PowerShell: "@,
            JobKind::Labels => "PowerShell print failed: "@,
        },
    }
}

/// What the error begins with when the stage `stage` fails.
pub open spec fn stage_prefix(platform: Platform, kind: JobKind, stage: Stage) -> Seq<char> {
    match stage {
        Stage::CreateFile => "Failed to create temp file: "@,
        Stage::WriteFile => match kind {
            JobKind::Ticket => "Failed to write ticket: "@,
            JobKind::Labels => "Failed to write barcodes: "@,
        },
        Stage::SyncFile => "Failed to sync file: "@,
        Stage::Launch => launch_prefix(platform, kind),
        Stage::Feed => match platform {
            Platform::Linux => "lp stdin: "@,
            _ => launch_prefix(platform, kind),
        },
        Stage::Wait => match platform {
            Platform::Linux => "lp wait: "@,
            _ => launch_prefix(platform, kind),
        },
    }
}

/// What the error begins with when starting the spooler fails.
fn launch_failure(platform: Platform, kind: JobKind) -> (text: String)
    ensures
        text@ == launch_prefix(platform, kind),
{
    match platform {
        Platform::MacOs => String::from_str("lp failed: "),
        Platform::Linux => String::from_str("lp spawn: "),
        Platform::Windows => match kind {
            JobKind::Ticket => String::from_str("Failed to run PowerShell: "),
            JobKind::Labels => String::from_str("PowerShell print failed: "),
        },
    }
}

/// The text of the error with which a job ends when the stage `stage` fails
/// for the reason `detail`.
pub fn stage_failure(platform: Platform, kind: JobKind, stage: Stage, detail: &str) -> (text:
    String)
    ensures
        text@ == stage_prefix(platform, kind, stage) + detail@,
{
    let mut text = match stage {
        Stage::CreateFile => String::from_str("Failed to create temp file: "),
        Stage::WriteFile => match kind {
            JobKind::Ticket => String::from_str("Failed to write ticket: "),
            JobKind::Labels => String::from_str("Failed to write barcodes: "),
        },
        Stage::SyncFile => String::from_str("Failed to sync file: "),
        Stage::Launch => launch_failure(platform, kind),
        Stage::Feed => match platform {
            Platform::Linux => String::from_str("lp stdin: "),
            _ => launch_failure(platform, kind),
        },
        Stage::Wait => match platform {
            Platform::Linux => String::from_str("lp wait: "),
            _ => launch_failure(platform, kind),
        },
    };
    text.append(detail);
    text
}

/// The text of the error with which a job ends when the spooler ran and
/// reported a failure: a hint at what to set right on `platform`.
pub open spec fn rejection_text(platform: Platform, kind: JobKind) -> Seq<char> {
    match platform {
        Platform::MacOs => match kind {
            JobKind::Ticket =>
                "No se pudo imprimir. En macOS agregue la impresora como Raw en http://localhost:631 (Administration > Add Printer > USB > Make: Raw)."@,
            JobKind::Labels =>
                "No se pudo imprimir. En macOS agregue la impresora como Raw en http://localhost:631."@,
        },
        Platform::Linux => match kind {
            JobKind::Ticket =>
                "No se pudo imprimir. En Ajustes del sistema → Impresoras, revisa que la impresora esté “Aceptando trabajos” y que uses controlador Genérico o Raw si está disponible."@,
            JobKind::Labels => "No se pudo imprimir. Revisa la impresora en Configuración."@,
        },
        Platform::Windows => match kind {
            JobKind::Ticket => "PowerShell print command failed"@,
            JobKind::Labels => "Error al imprimir."@,
        },
    }
}

/// The text of the error with which a job ends when the spooler ran and
/// reported a failure, see [`rejection_text`].
pub fn rejection(platform: Platform, kind: JobKind) -> (text: String)
    ensures
        text@ == rejection_text(platform, kind),
{
    match platform {
        Platform::MacOs => match kind {
            JobKind::Ticket => String::from_str(
                "No se pudo imprimir. En macOS agregue la impresora como Raw en http://localhost:631 (Administration > Add Printer > USB > Make: Raw).",
            ),
            JobKind::Labels => String::from_str(
                "No se pudo imprimir. En macOS agregue la impresora como Raw en http://localhost:631.",
            ),
        },
        Platform::Linux => match kind {
            JobKind::Ticket => String::from_str(
                "No se pudo imprimir. En Ajustes del sistema → Impresoras, revisa que la impresora esté “Aceptando trabajos” y que uses controlador Genérico o Raw si está disponible.",
            ),
            JobKind::Labels => String::from_str(
                "No se pudo imprimir. Revisa la impresora en Configuración.",
            ),
        },
        Platform::Windows => match kind {
            JobKind::Ticket => String::from_str("PowerShell print command failed"),
            JobKind::Labels => String::from_str("Error al imprimir."),
        },
    }
}

} // verus!
