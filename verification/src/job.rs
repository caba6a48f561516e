//! Print jobs: a ticket or a batch of labels, and the command stream of
//! either.

use vstd::prelude::*;
use crate::commands::is_framed;
use crate::label::{
    label_batch_commands, label_batch_stream, label_views, optional_chars, BarcodeLabel,
    LabelView,
};
use crate::spooler::JobKind;
use crate::ticket::{optional_text, ticket_commands, ticket_stream};

verus! {

/// A request to print.
#[derive(Debug)]
pub enum PrintJob {
    /// A text with an optional logo, given as base64 or as a data URL, above
    /// it.
    Ticket { text: String, logo: Option<String> },
    /// Labels, printed in the order given.
    LabelBatch { labels: Vec<BarcodeLabel> },
}

/// What a [`PrintJob`] holds.
pub enum JobView {
    Ticket { text: Seq<char>, logo: Option<Seq<char>> },
    LabelBatch { labels: Seq<LabelView> },
}

impl View for PrintJob {
    type V = JobView;

    open spec fn view(&self) -> JobView {
        match *self {
            PrintJob::Ticket { text, logo } => JobView::Ticket {
                text: text@,
                logo: optional_chars(logo),
            },
            PrintJob::LabelBatch { labels } => JobView::LabelBatch {
                labels: label_views(labels@),
            },
        }
    }
}

/// The command stream of `job`.
pub open spec fn job_stream(job: JobView) -> Seq<u8> {
    match job {
        JobView::Ticket { text, logo } => ticket_stream(text, logo),
        JobView::LabelBatch { labels } => label_batch_stream(labels),
    }
}

/// Two jobs that hold the same have the same command stream, byte for byte:
/// the stream depends on what the job holds and on nothing else.
pub proof fn lemma_same_job_same_stream(job: PrintJob, again: PrintJob)
    requires
        job@ == again@,
    ensures
        job_stream(job@) == job_stream(again@),
{
}

/// Which kind of job `job` is.
pub fn kind_of(job: &PrintJob) -> (kind: JobKind)
    ensures
        kind == (match job@ {
            JobView::Ticket { .. } => JobKind::Ticket,
            JobView::LabelBatch { .. } => JobKind::Labels,
        }),
{
    match job {
        PrintJob::Ticket { .. } => JobKind::Ticket,
        PrintJob::LabelBatch { .. } => JobKind::Labels,
    }
}

/// The command stream of `job`. There is no job for which this fails, and
/// the stream is always a whole job: it begins with the reset command and
/// ends with the cut command.
pub fn job_commands(job: &PrintJob) -> (out: Vec<u8>)
    ensures
        out@ == job_stream(job@),
        is_framed(out@),
{
    match job {
        PrintJob::Ticket { text, logo } => {
            let logo_text: Option<&str> = match logo {
                Some(data) => Some(data.as_str()),
                None => None,
            };
            assert(optional_text(logo_text) == optional_chars(*logo));
            ticket_commands(text.as_str(), logo_text)
        },
        PrintJob::LabelBatch { labels } => label_batch_commands(labels.as_slice()),
    }
}

} // verus!
