//! The transform stage: wraps a user transform, reads batches from its inbound
//! mailbox, transforms each one and fans the result out through a dispatcher.

use vstd::prelude::*;

use super::producer::chosen_strategy;
use super::recv_from;
use super::CycleOutcome;
use super::DestinationDown;
use super::Dispatcher;
use super::DispatcherType;
use super::Status;

verus! {

/// User-supplied transform logic.
pub trait ProducerConsumer<In, Out> {
    /// Runs once, before the first batch is read.
    fn init(&mut self);

    /// Turns one upstream batch into the batch to hand downstream.
    fn handle_events(&mut self, upstream_events: Vec<In>) -> Vec<Out>;

    /// Runs once when the stage stops cleanly, on upstream end-of-stream.
    fn terminate(&mut self);
}

/// The transform stage runtime: owns the user transform and the dispatcher
/// over its downstream destinations; its inbound mailbox's read handle is
/// supplied to `run_loop`.
#[verifier::reject_recursive_types(Out)]
pub struct ProducerConsumerRunnable<In, Out, T: ProducerConsumer<In, Out>> {
    /// The wrapped user transform.
    pub proc: T,
    /// Fans transformed batches out to the downstream mailboxes.
    pub dispatcher: Dispatcher<Out>,
    /// Pins the element type the transform reads.
    pub marker: core::marker::PhantomData<In>,
}

impl<In, Out: Clone, T: ProducerConsumer<In, Out>> ProducerConsumerRunnable<In, Out, T> {
    /// Builds a transform stage over a non-empty, duplicate-free destination
    /// list; the strategy defaults to round-robin when unspecified.
    pub fn new(
        proc: T,
        subscribe_to: Vec<tokio::sync::mpsc::Sender<Vec<Out>>>,
        dispatcher_type: Option<DispatcherType>,
    ) -> (r: Result<Self, Status>)
        ensures
            subscribe_to@.len() == 0 ==> (r matches Err(e) && e == Status::SenderNotFound),
            subscribe_to@.len() == 1 ==> r is Ok,
            r matches Err(e) ==> (e == Status::SenderNotFound <==> subscribe_to@.len() == 0),
            r matches Ok(p) ==> p.dispatcher.wf() && p.dispatcher.c == 0
                && p.dispatcher.dests() == subscribe_to@ && p.dispatcher.dests().len() > 0
                && p.dispatcher.strategy() == chosen_strategy(dispatcher_type)
                && p.dispatcher.log().len() == 0 && p.proc == proc,
    {
        if subscribe_to.len() == 0 {
            return Err(Status::SenderNotFound);
        }
        let dt = if let Some(dt) = dispatcher_type {
            dt
        } else {
            DispatcherType::RoundRobin
        };
        match Dispatcher::new(subscribe_to, dt) {
            Ok(dispatcher) => Ok(
                ProducerConsumerRunnable { proc, dispatcher, marker: core::marker::PhantomData },
            ),
            Err(a) => Err(a),
        }
    }

    /// Well-formedness of a running transform stage: the dispatcher is sound
    /// and still has somewhere to deliver.
    pub open spec fn wf(&self) -> bool {
        self.dispatcher.wf() && self.dispatcher.dests().len() >= 1
    }

    /// Runs the user transform's `init` once, before the first cycle.
    pub fn start(&mut self)
        ensures
            final(self).dispatcher == old(self).dispatcher,
    {
        self.proc.init();
    }

    /// One transformation step: hand the upstream batch to the transform and
    /// dispatch whatever batch it returns. The dispatched batch is the
    /// transform's to choose, so only the dispatcher's behaviour is owed.
    pub fn produce_to_dst(&mut self, upstream_events: Vec<In>) -> (r: Result<
        (),
        DestinationDown<Out>,
    >)
        requires
            old(self).wf(),
        ensures
            final(self).dispatcher.wf(),
            final(self).dispatcher.strategy() == old(self).dispatcher.strategy(),
            exists|ev: Seq<Out>|
                Dispatcher::dispatch_post(old(self).dispatcher, final(self).dispatcher, ev, r),
            r matches Ok(()) ==> final(self).wf(),
            r matches Err(dd) ==> final(self).dispatcher.dests().len() == 0,
    {
        let events = self.proc.handle_events(upstream_events);
        let ghost ev = events@;
        let ghost pre = self.dispatcher;
        let r = self.dispatcher.dispatch(events);
        proof {
            if r is Ok && pre.dispatcher_type == DispatcherType::RoundRobin {
                let m = choose|m: int| Dispatcher::rr_ok_at(pre, self.dispatcher, ev, m);
                super::lemma_evict_run_len(pre.dests(), pre.cur(), m as nat);
            }
        }
        r
    }

    /// One cycle of the transform stage: block-receive the next upstream
    /// batch, transform it and dispatch the result. Stops cleanly (running
    /// `terminate`) on upstream end-of-stream; stops with the undelivered
    /// batch when every destination is gone.
    pub fn cycle(&mut self, rx: &mut tokio::sync::mpsc::Receiver<Vec<In>>) -> (r: CycleOutcome<
        Out,
    >)
        requires
            old(self).wf(),
        ensures
            match r {
                CycleOutcome::Running => final(self).wf(),
                CycleOutcome::Terminated(None) => final(self).dispatcher == old(self).dispatcher,
                CycleOutcome::Terminated(Some(dd)) => final(self).dispatcher.dests().len() == 0,
            },
    {
        match recv_from(rx) {
            Some(upstream_events) => {
                match self.produce_to_dst(upstream_events) {
                    Ok(()) => CycleOutcome::Running,
                    Err(dd) => CycleOutcome::Terminated(Some(dd)),
                }
            },
            None => {
                self.proc.terminate();
                CycleOutcome::Terminated(None)
            },
        }
    }
}

} // verus!
