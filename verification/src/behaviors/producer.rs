//! The source stage: wraps a user producer, generates batches on demand and
//! fans them out through a dispatcher, polling a cancellation signal once per
//! cycle.

use vstd::prelude::*;

use super::poll_shutdown;
use super::CycleOutcome;
use super::DestinationDown;
use super::Dispatcher;
use super::DispatcherType;
use super::Status;

verus! {

/// User-supplied source logic.
pub trait Producer<Out> {
    /// Runs once, before the first production cycle.
    fn init(&mut self);

    /// Produces the next batch, of at most `max_demand` elements.
    fn handle_demand(&mut self, max_demand: usize) -> (events: Vec<Out>)
        ensures
            events@.len() <= max_demand,
    ;

    /// Runs once when the stage stops cleanly, on the cancellation signal.
    fn terminate(&mut self);
}

/// The source stage runtime: owns the user producer, the dispatcher over its
/// downstream destinations, the per-cycle batch size bound and the
/// cancellation signal.
#[verifier::reject_recursive_types(Out)]
pub struct ProducerRunnable<Out, P: Producer<Out>> {
    /// The wrapped user producer.
    pub proc: P,
    /// Fans produced batches out to the downstream mailboxes.
    pub dispatcher: Dispatcher<Out>,
    /// Upper bound on the size of each produced batch.
    pub max_demand: usize,
    /// Single-fire cancellation signal, polled once per cycle.
    pub shutdown: tokio::sync::oneshot::Receiver<()>,
}

impl<Out: Clone, P: Producer<Out>> ProducerRunnable<Out, P> {
    /// Builds a source stage over a non-empty, duplicate-free destination
    /// list; the strategy defaults to round-robin when unspecified.
    pub fn new(
        proc: P,
        subscribe_to: Vec<tokio::sync::mpsc::Sender<Vec<Out>>>,
        dispatcher_type: Option<DispatcherType>,
        max_demand: usize,
        shutdown: tokio::sync::oneshot::Receiver<()>,
    ) -> (r: Result<Self, Status>)
        ensures
            subscribe_to@.len() == 0 ==> (r matches Err(e) && e == Status::SenderNotFound),
            subscribe_to@.len() == 1 ==> r is Ok,
            r matches Err(e) ==> (e == Status::SenderNotFound <==> subscribe_to@.len() == 0),
            r matches Ok(p) ==> p.dispatcher.wf() && p.dispatcher.c == 0
                && p.dispatcher.dests() == subscribe_to@ && p.dispatcher.dests().len() > 0
                && p.dispatcher.strategy() == chosen_strategy(dispatcher_type)
                && p.dispatcher.log().len() == 0 && p.max_demand == max_demand && p.proc == proc
                && p.shutdown == shutdown,
    {
        if subscribe_to.len() == 0 {
            return Err(Status::SenderNotFound);
        }
        let dt = if let Some(dt) = dispatcher_type {
            dt
        } else {
            DispatcherType::RoundRobin
        };
        match Dispatcher::new(subscribe_to, dt) {
            Ok(dispatcher) => Ok(
                ProducerRunnable { proc, dispatcher, max_demand, shutdown },
            ),
            Err(a) => Err(a),
        }
    }

    /// Well-formedness of a running source stage: the dispatcher is sound and
    /// still has somewhere to deliver.
    pub open spec fn wf(&self) -> bool {
        self.dispatcher.wf() && self.dispatcher.dests().len() >= 1
    }

    /// Runs the user producer's `init` once, before the first cycle.
    pub fn start(&mut self)
        ensures
            final(self).dispatcher == old(self).dispatcher,
            final(self).max_demand == old(self).max_demand,
    {
        self.proc.init();
    }

    /// One production step: ask the producer for the next batch (of at most
    /// `max_demand` elements) and hand it to the dispatcher. On failure the
    /// returned `DestinationDown` carries that whole batch, so it too holds
    /// at most `max_demand` elements.
    pub fn produce_to_dst(&mut self) -> (r: Result<(), DestinationDown<Out>>)
        requires
            old(self).wf(),
        ensures
            final(self).max_demand == old(self).max_demand,
            final(self).dispatcher.wf(),
            final(self).dispatcher.strategy() == old(self).dispatcher.strategy(),
            exists|ev: Seq<Out>|
                ev.len() <= old(self).max_demand && Dispatcher::dispatch_post(
                    old(self).dispatcher,
                    final(self).dispatcher,
                    ev,
                    r,
                ),
            r matches Ok(()) ==> final(self).wf(),
            r matches Err(dd) ==> dd.0@.len() <= old(self).max_demand
                && final(self).dispatcher.dests().len() == 0,
    {
        let events = self.proc.handle_demand(self.max_demand);
        let ghost ev = events@;
        let ghost pre = self.dispatcher;
        let r = self.dispatcher.dispatch(events);
        proof {
            if r is Ok && pre.dispatcher_type == DispatcherType::RoundRobin {
                let m = choose|m: int| Dispatcher::rr_ok_at(pre, self.dispatcher, ev, m);
                super::lemma_evict_run_len(pre.dests(), pre.cur(), m as nat);
            }
        }
        r
    }

    /// One cycle of the source stage: poll the cancellation signal, and
    /// either stop cleanly (running `terminate`) or produce and dispatch one
    /// batch. Whether the signal has fired and whether any destination is
    /// still alive are the channels' decisions, not this function's.
    pub fn cycle(&mut self) -> (r: CycleOutcome<Out>)
        requires
            old(self).wf(),
        ensures
            final(self).max_demand == old(self).max_demand,
            match r {
                CycleOutcome::Running => final(self).wf(),
                CycleOutcome::Terminated(None) => final(self).dispatcher == old(self).dispatcher,
                CycleOutcome::Terminated(Some(dd)) => dd.0@.len() <= old(self).max_demand
                    && final(self).dispatcher.dests().len() == 0,
            },
    {
        if poll_shutdown(&mut self.shutdown) {
            self.proc.terminate();
            return CycleOutcome::Terminated(None);
        }
        match self.produce_to_dst() {
            Ok(()) => CycleOutcome::Running,
            Err(dd) => CycleOutcome::Terminated(Some(dd)),
        }
    }
}

/// The strategy a stage runs with: the requested one, or round-robin when none
/// was requested.
pub open spec fn chosen_strategy(requested: Option<DispatcherType>) -> DispatcherType {
    match requested {
        Some(t) => t,
        None => DispatcherType::RoundRobin,
    }
}

} // verus!
