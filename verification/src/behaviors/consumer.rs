//! The sink stage: wraps a user consumer, reads batches from its inbound
//! mailbox and hands each one to the consumer until the stream ends, the
//! consumer asks to stop, or the consumer reports undeliverable data.

use vstd::prelude::*;

use super::recv_from;
use super::CycleOutcome;
use super::DestinationDown;

verus! {

/// What a consumer asks its stage to do after handling one batch.
pub enum State<ConsumerIn> {
    /// Keep reading the next batch.
    Continue,
    /// Stop reading; the stage terminates cleanly.
    Terminate,
    /// Stop at once, surfacing the carried batch as undelivered data.
    DestinationDown(Vec<ConsumerIn>),
}

/// User-supplied sink logic.
pub trait Consumer<ConsumerIn> {
    /// Runs once, before the first batch is read.
    fn init(&mut self);

    /// Consumes one batch from upstream and decides how the stage goes on.
    fn handle_events(&mut self, upstream_events: Vec<ConsumerIn>) -> State<ConsumerIn>;

    /// Runs once when the stage stops cleanly: on upstream end-of-stream or
    /// after the consumer returned `State::Terminate`.
    fn terminate(&mut self);
}

/// The sink stage runtime: owns the user consumer; its inbound mailbox's read
/// handle is supplied to `run_loop`.
pub struct ConsumerRunnable<ConsumerIn, C: Consumer<ConsumerIn>> {
    /// The wrapped user consumer.
    pub proc: C,
    /// Pins the element type the consumer reads.
    pub marker: core::marker::PhantomData<ConsumerIn>,
}

impl<ConsumerIn, C: Consumer<ConsumerIn>> ConsumerRunnable<ConsumerIn, C> {
    /// Wraps a user consumer into a runnable sink stage.
    pub fn new(proc: C) -> (r: Self)
        ensures
            r.proc == proc,
    {
        ConsumerRunnable { proc, marker: core::marker::PhantomData }
    }

    /// Runs the user consumer's `init` once, before the first cycle.
    pub fn start(&mut self) {
        self.proc.init();
    }

    /// One cycle of the sink stage: block-receive the next batch from the
    /// mailbox, hand it to the consumer, and turn the consumer's answer into
    /// the stage outcome exactly as `outcome_of` states, running `terminate`
    /// on the clean stops (end-of-stream, or the consumer's `Terminate`).
    /// Which answer arrives is the channel's and the consumer's decision, not
    /// this function's. Must run outside an async execution context.
    pub fn cycle(&mut self, rx: &mut tokio::sync::mpsc::Receiver<Vec<ConsumerIn>>) -> (r:
        CycleOutcome<ConsumerIn>) {
        let answer = match recv_from(rx) {
            Some(upstream_events) => Some(self.proc.handle_events(upstream_events)),
            None => None,
        };
        let clean_stop = match &answer {
            None => true,
            Some(State::Terminate) => true,
            Some(State::Continue) => false,
            Some(State::DestinationDown(_)) => false,
        };
        if clean_stop {
            self.proc.terminate();
        }
        outcome_of(answer)
    }
}

/// The sink stage's transition function, from what one receive-and-consume
/// step yielded to what the stage does next: `Continue` keeps the stage
/// running; `Terminate` and upstream end-of-stream (`None`) stop it cleanly
/// with no leftover; `DestinationDown` stops it at once, surfacing the
/// carried batch unchanged as the stage's terminal result.
pub fn outcome_of<ConsumerIn>(answer: Option<State<ConsumerIn>>) -> (r: CycleOutcome<ConsumerIn>)
    ensures
        match answer {
            None => r matches CycleOutcome::Terminated(None),
            Some(State::Continue) => r matches CycleOutcome::Running,
            Some(State::Terminate) => r matches CycleOutcome::Terminated(None),
            Some(State::DestinationDown(ev)) => (r matches CycleOutcome::Terminated(Some(dd))
                && dd.0 == ev),
        },
{
    match answer {
        Some(State::Continue) => CycleOutcome::Running,
        Some(State::Terminate) => CycleOutcome::Terminated(None),
        Some(State::DestinationDown(events)) => CycleOutcome::Terminated(
            Some(DestinationDown(events)),
        ),
        None => CycleOutcome::Terminated(None),
    }
}

} // verus!
