//! In which order the output channels are tried when a command stream is
//! delivered: the direct device first, then the print spooler, each once.
//!
//! The writing itself is done by the caller. It starts with [`start`], does
//! what the [`Action`] says, reports how it went to [`step`], and goes on
//! until the action is [`Action::Finish`]; [`result`] is then what the job
//! returns.

use vstd::prelude::*;

verus! {

/// A way to hand a command stream to the printer.
#[derive(Clone, Copy, Debug, PartialEq, Eq, Structural)]
pub enum Channel {
    /// The printer's device, written to as a raw sink of bytes.
    Direct,
    /// The print queue of the operating system, in raw mode.
    Spooler,
}

/// Why the print spooler did not take a job. This is the only error that a
/// job returns.
#[derive(Debug)]
pub struct SpoolerError {
    pub message: String,
}

/// How the attempt on a channel went.
#[derive(Debug)]
pub enum Attempt {
    /// The channel took the whole stream.
    Succeeded,
    /// The channel did not take the stream; the text says why.
    Failed(String),
}

/// How far the delivery of a job has come.
#[derive(Debug)]
pub enum Delivery {
    /// The direct device is being tried.
    AwaitingDirect,
    /// The direct device has failed and the spooler is being tried.
    AwaitingSpooler,
    /// The channel named took the whole stream.
    Delivered(Channel),
    /// Both channels have failed; the text is what the spooler reported.
    Failed(String),
}

/// What the caller does next.
#[derive(Clone, Copy, Debug, PartialEq, Eq, Structural)]
pub enum Action {
    /// Write the whole stream to the channel named and report how it went.
    Write(Channel),
    /// Stop: the job is over.
    Finish,
}

impl Delivery {
    /// Whether the job is over.
    pub open spec fn is_over(self) -> bool {
        self is Delivered || self is Failed
    }

    /// What the caller is asked to do in this state.
    pub open spec fn asks(self) -> Action {
        match self {
            Delivery::AwaitingDirect => Action::Write(Channel::Direct),
            Delivery::AwaitingSpooler => Action::Write(Channel::Spooler),
            Delivery::Delivered(_) => Action::Finish,
            Delivery::Failed(_) => Action::Finish,
        }
    }

    /// The state after `attempt` has been reported in this state. A success
    /// ends the job. A failure of the direct device leads to the spooler and
    /// is then forgotten; a failure of the spooler ends the job with the
    /// spooler's report. A job that is over stays as it is.
    pub open spec fn after(self, attempt: Attempt) -> Delivery {
        match self {
            Delivery::AwaitingDirect => match attempt {
                Attempt::Succeeded => Delivery::Delivered(Channel::Direct),
                Attempt::Failed(_) => Delivery::AwaitingSpooler,
            },
            Delivery::AwaitingSpooler => match attempt {
                Attempt::Succeeded => Delivery::Delivered(Channel::Spooler),
                Attempt::Failed(report) => Delivery::Failed(report),
            },
            Delivery::Delivered(channel) => Delivery::Delivered(channel),
            Delivery::Failed(report) => Delivery::Failed(report),
        }
    }

    /// What the job returns: nothing while it is going on, success once a
    /// channel has taken the stream, the spooler's report once both have
    /// failed.
    pub open spec fn outcome(self) -> Option<Result<(), SpoolerError>> {
        match self {
            Delivery::AwaitingDirect => None,
            Delivery::AwaitingSpooler => None,
            Delivery::Delivered(_) => Some(Ok(())),
            Delivery::Failed(report) => Some(Err(SpoolerError { message: report })),
        }
    }
}

/// The state in which every job begins, and what it asks for first: a write
/// to the direct device.
pub fn start() -> (r: (Delivery, Action))
    ensures
        r.0 == Delivery::AwaitingDirect,
        r.1 == r.0.asks(),
        r.1 == Action::Write(Channel::Direct),
{
    (Delivery::AwaitingDirect, Action::Write(Channel::Direct))
}

/// Takes the report `attempt` on what was last asked for and says how the
/// job goes on.
pub fn step(state: Delivery, attempt: Attempt) -> (r: (Delivery, Action))
    ensures
        r.0 == state.after(attempt),
        r.1 == r.0.asks(),
{
    match state {
        Delivery::AwaitingDirect => match attempt {
            Attempt::Succeeded => (Delivery::Delivered(Channel::Direct), Action::Finish),
            Attempt::Failed(_) => (Delivery::AwaitingSpooler, Action::Write(Channel::Spooler)),
        },
        Delivery::AwaitingSpooler => match attempt {
            Attempt::Succeeded => (Delivery::Delivered(Channel::Spooler), Action::Finish),
            Attempt::Failed(report) => (Delivery::Failed(report), Action::Finish),
        },
        Delivery::Delivered(channel) => (Delivery::Delivered(channel), Action::Finish),
        Delivery::Failed(report) => (Delivery::Failed(report), Action::Finish),
    }
}

/// What the job returns, see [`Delivery::outcome`].
pub fn result(state: Delivery) -> (r: Option<Result<(), SpoolerError>>)
    ensures
        r == state.outcome(),
{
    match state {
        Delivery::AwaitingDirect => None,
        Delivery::AwaitingSpooler => None,
        Delivery::Delivered(_) => Some(Ok(())),
        Delivery::Failed(report) => Some(Err(SpoolerError { message: report })),
    }
}

/// What a channel reports when it is written to: `direct` for the direct
/// device, `spooler` for the spooler.
pub open spec fn report_of(channel: Channel, direct: Attempt, spooler: Attempt) -> Attempt {
    match channel {
        Channel::Direct => direct,
        Channel::Spooler => spooler,
    }
}

/// The writes that a caller makes from the state `state` on, when it follows
/// the actions for at most `rounds` further rounds and the channels report
/// `direct` and `spooler`.
pub open spec fn writes_from(
    state: Delivery,
    direct: Attempt,
    spooler: Attempt,
    rounds: nat,
) -> Seq<Channel>
    decreases rounds,
{
    match state.asks() {
        Action::Finish => Seq::empty(),
        Action::Write(channel) => if rounds == 0 {
            seq![channel]
        } else {
            seq![channel] + writes_from(
                state.after(report_of(channel, direct, spooler)),
                direct,
                spooler,
                (rounds - 1) as nat,
            )
        },
    }
}

/// The state in which a caller ends that follows the actions from `state` on
/// for at most `rounds` rounds.
pub open spec fn state_after(
    state: Delivery,
    direct: Attempt,
    spooler: Attempt,
    rounds: nat,
) -> Delivery
    decreases rounds,
{
    match state.asks() {
        Action::Finish => state,
        Action::Write(channel) => if rounds == 0 {
            state
        } else {
            state_after(
                state.after(report_of(channel, direct, spooler)),
                direct,
                spooler,
                (rounds - 1) as nat,
            )
        },
    }
}

/// How often `channel` occurs in `writes`.
pub open spec fn times_written(writes: Seq<Channel>, channel: Channel) -> nat
    decreases writes.len(),
{
    if writes.len() == 0 {
        0
    } else {
        times_written(writes.drop_last(), channel) + if writes.last() == channel {
            1nat
        } else {
            0nat
        }
    }
}

/// Every job is over after two rounds. The direct device is written to once.
/// The spooler is written to once where the direct device failed, and never
/// otherwise. The job succeeds where either write did. Where both failed it
/// returns the spooler's report, not that of the direct device.
pub proof fn lemma_two_channels_once_each(direct: Attempt, spooler: Attempt, rounds: nat)
    requires
        rounds >= 2,
    ensures
        state_after(Delivery::AwaitingDirect, direct, spooler, rounds).is_over(),
        times_written(
            writes_from(Delivery::AwaitingDirect, direct, spooler, rounds),
            Channel::Direct,
        ) == 1,
        times_written(
            writes_from(Delivery::AwaitingDirect, direct, spooler, rounds),
            Channel::Spooler,
        ) == (if direct is Failed {
            1nat
        } else {
            0nat
        }),
        state_after(Delivery::AwaitingDirect, direct, spooler, rounds).outcome() == Some(
            match (direct, spooler) {
                (Attempt::Succeeded, _) => Ok::<(), SpoolerError>(()),
                (Attempt::Failed(_), Attempt::Succeeded) => Ok::<(), SpoolerError>(()),
                (Attempt::Failed(_), Attempt::Failed(report)) => Err::<(), SpoolerError>(
                    SpoolerError { message: report },
                ),
            },
        ),
{
    reveal_with_fuel(writes_from, 4);
    reveal_with_fuel(state_after, 4);
    reveal_with_fuel(times_written, 4);
    let writes = writes_from(Delivery::AwaitingDirect, direct, spooler, rounds);
    match direct {
        Attempt::Succeeded => {
            assert(writes =~= seq![Channel::Direct]);
            assert(writes.drop_last() =~= Seq::<Channel>::empty());
        },
        Attempt::Failed(_) => {
            assert(writes =~= seq![Channel::Direct, Channel::Spooler]);
            assert(writes.drop_last() =~= seq![Channel::Direct]);
            assert(writes.drop_last().drop_last() =~= Seq::<Channel>::empty());
        },
    }
}

/// A job that is over asks for nothing more and returns the same whatever is
/// reported to it.
pub proof fn lemma_over_is_final(state: Delivery, attempt: Attempt)
    requires
        state.is_over(),
    ensures
        state.after(attempt) == state,
        state.asks() == Action::Finish,
        state.outcome() is Some,
{
}

} // verus!
