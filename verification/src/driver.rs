//! The decisions of the task that drives an endpoint. Each round of the task
//! drains the messages of the connections, reads datagrams until none is
//! ready or one opens a connection, and then flushes the packets to send.
//! What the task does after a round is decided here.

use vstd::prelude::*;

verus! {

/// How the reading of datagrams ended in a round.
#[derive(Clone, Copy, Debug, PartialEq, Eq, Structural)]
pub enum Intake {
    /// No datagram was ready.
    Suspended,
    /// A datagram opened a connection, which has been taken up or refused.
    NewConnection,
}

/// How the flushing of packets ended in a round.
#[derive(Clone, Copy, Debug, PartialEq, Eq, Structural)]
pub enum Flush {
    /// The socket could not take a packet, which is held back.
    Suspended,
    /// Every packet went out; none is held back.
    Done,
}

/// What the driver does after a round.
#[derive(Clone, Copy, Debug, PartialEq, Eq, Structural)]
pub enum Step {
    /// Give way to the scheduler; the task is woken when there is work.
    Yield,
    /// Start the next round at once.
    Continue,
    /// The task is finished, successfully.
    Terminate,
}

/// The step after a round. `owners` counts the strong references to the
/// endpoint, the driver's own included.
///
/// A round that ran out of datagrams, or could not flush, yields. A round
/// that took a new connection and flushed everything goes on, unless the
/// driver is the endpoint's only owner left: then it terminates.
pub open spec fn step_after(intake: Intake, flush: Flush, owners: usize) -> Step {
    match (intake, flush) {
        (Intake::Suspended, _) => Step::Yield,
        (Intake::NewConnection, Flush::Suspended) => Step::Yield,
        (Intake::NewConnection, Flush::Done) => if owners == 1 {
            Step::Terminate
        } else {
            Step::Continue
        },
    }
}

/// Decides what the driver does after a round.
pub fn next_step(intake: Intake, flush: Flush, owners: usize) -> (step: Step)
    ensures
        step == step_after(intake, flush, owners),
{
    match intake {
        Intake::Suspended => Step::Yield,
        Intake::NewConnection => match flush {
            Flush::Suspended => Step::Yield,
            Flush::Done => if owners == 1 {
                Step::Terminate
            } else {
                Step::Continue
            },
        },
    }
}

/// The driver terminates exactly after a round that took a new connection
/// and flushed every packet while no owner but the driver was left. In
/// particular it never terminates with a packet held back, nor while a
/// handle on the endpoint is still out.
pub proof fn lemma_terminates_only_when_unowned_and_flushed(
    intake: Intake,
    flush: Flush,
    owners: usize,
)
    ensures
        step_after(intake, flush, owners) == Step::Terminate <==> intake == Intake::NewConnection
            && flush == Flush::Done && owners == 1,
{
}

/// Once every handle on the endpoint is dropped and nothing is left to
/// send, a round that takes a new connection is the driver's last.
pub proof fn lemma_unowned_flushed_driver_terminates(intake: Intake, flush: Flush, owners: usize)
    requires
        intake == Intake::NewConnection,
        flush == Flush::Done,
        owners == 1,
    ensures
        step_after(intake, flush, owners) == Step::Terminate,
{
}

} // verus!
