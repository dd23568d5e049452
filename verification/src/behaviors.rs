//! The dispatch engine shared by every stage that has downstream destinations,
//! together with the error taxonomy and the trusted declarations of the tokio
//! channel handles that carry batches between stages.

pub mod consumer;
pub mod producer;
pub mod producer_consumer;

use vstd::prelude::*;

verus! {

/// Construction-time failure of a stage or dispatcher.
#[derive(Debug, Clone, Copy, PartialEq, Eq, Structural)]
pub enum Status {
    /// The destination list handed to a stage was empty.
    SenderNotFound,
    /// Two destinations in the list reference the same mailbox.
    SendersRepetitive,
}

/// Terminal value of a stage whose dispatcher exhausted every destination:
/// carries the batch that could not be delivered anywhere.
#[derive(Debug)]
pub struct DestinationDown<Out>(pub Vec<Out>);

/// Fan-out strategy of a dispatcher.
#[derive(Debug, Clone, Copy, PartialEq, Eq, Structural)]
pub enum DispatcherType {
    /// Each batch goes to exactly one destination, cycling through the set.
    RoundRobin,
    /// Each destination receives its own copy of each batch.
    Broadcast,
}

/// Tokio's bounded multi-producer single-consumer channel sender: the write
/// handle of a mailbox.
#[verifier::external_type_specification]
#[verifier::external_body]
#[verifier::reject_recursive_types(T)]
pub struct ExSender<T>(tokio::sync::mpsc::Sender<T>);

/// Tokio's bounded channel receiver: the read handle of a mailbox.
#[verifier::external_type_specification]
#[verifier::external_body]
#[verifier::reject_recursive_types(T)]
pub struct ExReceiver<T>(tokio::sync::mpsc::Receiver<T>);

/// Tokio's single-fire oneshot receiver, used as the cancellation signal of a
/// source stage.
#[verifier::external_type_specification]
#[verifier::external_body]
#[verifier::reject_recursive_types(T)]
pub struct ExOneshotReceiver<T>(tokio::sync::oneshot::Receiver<T>);

/// The error tokio's oneshot receiver reports once its sender is gone. No
/// code here touches it, but declaring `oneshot::Receiver` obliges Verus to
/// read that type's trait impls, and its `Future` impl names this error.
#[verifier::external_type_specification]
#[verifier::external_body]
pub struct ExOneshotRecvError(tokio::sync::oneshot::error::RecvError);

/// Relies on tokio's `Sender::blocking_send`: delivers the batch into the
/// mailbox in FIFO order, blocking while the mailbox is full; when the
/// receiving side is gone it returns the undelivered value itself back inside
/// the error. Must be called from outside an async execution context.
#[verifier::external_body]
pub(crate) fn send_to<Out>(dest: &tokio::sync::mpsc::Sender<Vec<Out>>, events: Vec<Out>) -> (r:
    Result<(), Vec<Out>>)
    ensures
        r matches Err(e) ==> e == events,
{
    match dest.blocking_send(events) {
        Ok(()) => Ok(()),
        Err(tokio::sync::mpsc::error::SendError(v)) => Err(v),
    }
}

/// Relies on tokio's `Receiver::blocking_recv`: returns the next batch in FIFO
/// order, blocking until one is available, or `None` once every sender is gone
/// and the mailbox has drained. Must be called from outside an async execution
/// context.
#[verifier::external_body]
pub(crate) fn recv_from<In>(rx: &mut tokio::sync::mpsc::Receiver<Vec<In>>) -> (r: Option<Vec<In>>)
{
    rx.blocking_recv()
}

/// Relies on tokio's `oneshot::Receiver::try_recv`: a non-blocking poll that
/// observes the fired signal at most once; before the signal, and ever after
/// that one observation, it reports false.
#[verifier::external_body]
pub(crate) fn poll_shutdown(rx: &mut tokio::sync::oneshot::Receiver<()>) -> (fired: bool) {
    rx.try_recv().is_ok()
}

/// Relies on tokio's `Sender::same_channel`: tells whether two write handles
/// reference the same underlying mailbox.
#[verifier::external_body]
pub(crate) fn same_mailbox<Out>(
    a: &tokio::sync::mpsc::Sender<Vec<Out>>,
    b: &tokio::sync::mpsc::Sender<Vec<Out>>,
) -> bool {
    a.same_channel(b)
}

/// What one execution cycle of a stage decided: keep running, or stop with the
/// stage's terminal result (`None` for a clean stop, or the batch that could
/// not be delivered anywhere).
pub enum CycleOutcome<Out> {
    /// The stage goes on to its next cycle.
    Running,
    /// The stage has stopped; no further cycle may run.
    Terminated(Option<DestinationDown<Out>>),
}

/// Fans one stage's output batches out to a set of destination mailboxes.
///
/// The ghost `sent` log records, in order, every delivery the dispatcher has
/// made: an entry `(d, b)` states that one batch whose elements are clones of
/// `b`'s elements (or `b` itself) was handed to destination `d`'s mailbox.
#[verifier::reject_recursive_types(Out)]
pub struct Dispatcher<Out> {
    /// Rotating round-robin cursor; always at most `subscribe_to.len()`.
    pub c: usize,
    /// The destination set, in construction order; shrinks on eviction.
    pub subscribe_to: Vec<tokio::sync::mpsc::Sender<Vec<Out>>>,
    /// The fan-out strategy, fixed at construction.
    pub dispatcher_type: DispatcherType,
    /// Delivery log (ghost): which destination received which batch.
    pub sent: Ghost<Seq<(tokio::sync::mpsc::Sender<Vec<Out>>, Seq<Out>)>>,
}

impl<Out> Dispatcher<Out> {
    /// The current destination set.
    pub open spec fn dests(&self) -> Seq<tokio::sync::mpsc::Sender<Vec<Out>>> {
        self.subscribe_to@
    }

    /// The configured fan-out strategy.
    pub open spec fn strategy(&self) -> DispatcherType {
        self.dispatcher_type
    }

    /// The delivery log so far.
    pub open spec fn log(&self) -> Seq<(tokio::sync::mpsc::Sender<Vec<Out>>, Seq<Out>)> {
        self.sent@
    }

    /// Well-formedness: the cursor never runs past the destination set.
    pub open spec fn wf(&self) -> bool {
        self.c <= self.subscribe_to@.len()
    }

    /// The position the next round-robin send will try: the cursor, wrapped to
    /// 0 once it has reached the end of the set.
    pub open spec fn cur(&self) -> int {
        clamp_pos(self.c as int, self.dests().len() as int)
    }

    /// A successful round-robin dispatch of `ev` that evicted exactly `m` dead
    /// destinations before the send went through: the survivors keep their
    /// order, the batch lands at the candidate position of the shrunken set,
    /// and the cursor moves one past it.
    pub open spec fn rr_ok_at(pre: Self, post: Self, ev: Seq<Out>, m: int) -> bool {
        let d1 = evict_run(pre.dests(), pre.cur(), m as nat);
        let k = clamp_pos(pre.cur(), d1.len() as int);
        &&& 0 <= m < pre.dests().len()
        &&& post.dests() == d1
        &&& post.c == k + 1
        &&& post.sent@ == pre.sent@.push((d1[k], ev))
        &&& post.dispatcher_type == pre.dispatcher_type
    }

    /// Outcome of one round-robin dispatch: either the batch landed after some
    /// run of evictions, or every destination was dead and the batch comes
    /// back whole, with nothing logged and nothing left in the set.
    pub open spec fn rr_post(
        pre: Self,
        post: Self,
        ev: Seq<Out>,
        r: Result<(), DestinationDown<Out>>,
    ) -> bool {
        match r {
            Ok(()) => exists|m: int| Self::rr_ok_at(pre, post, ev, m),
            Err(dd) => {
                &&& post.dests().len() == 0
                &&& dd.0@ == ev
                &&& post.sent@ == pre.sent@
                &&& post.c == 0
                &&& post.dispatcher_type == pre.dispatcher_type
            },
        }
    }

    /// Outcome of one broadcast dispatch: it never fails, evicts nothing and
    /// leaves the cursor alone; every destination whose mailbox still accepts
    /// input receives one copy of the batch, in construction order.
    pub open spec fn bc_post(
        pre: Self,
        post: Self,
        ev: Seq<Out>,
        r: Result<(), DestinationDown<Out>>,
    ) -> bool {
        &&& r is Ok
        &&& post.c == pre.c
        &&& post.dests() == pre.dests()
        &&& post.dispatcher_type == pre.dispatcher_type
        &&& exists|ok: Seq<bool>|
            ok.len() == pre.dests().len() && post.sent@ == pre.sent@ + bc_entries(
                pre.dests(),
                ok,
                ev,
            )
    }

    /// Outcome of one dispatch call, per the configured strategy.
    pub open spec fn dispatch_post(
        pre: Self,
        post: Self,
        ev: Seq<Out>,
        r: Result<(), DestinationDown<Out>>,
    ) -> bool {
        match pre.dispatcher_type {
            DispatcherType::RoundRobin => Self::rr_post(pre, post, ev, r),
            DispatcherType::Broadcast => Self::bc_post(pre, post, ev, r),
        }
    }

    /// Round-robin visiting law: a dispatch in which the send at the cursor
    /// went through at once delivers the batch to the destination at the
    /// cursor, keeps the whole set, and moves the cursor one step in cyclic
    /// order — so consecutive such dispatches visit the destinations in
    /// cyclic construction order.
    pub proof fn lemma_round_robin_visits_in_order(pre: Self, post: Self, ev: Seq<Out>)
        requires
            pre.wf(),
            Self::rr_ok_at(pre, post, ev, 0),
        ensures
            post.dests() == pre.dests(),
            post.log() == pre.log().push((pre.dests()[pre.cur()], ev)),
            post.wf(),
            post.cur() == cyclic_pos(pre.cur(), 1, pre.dests().len() as int),
    {
    }

    /// Round-robin cycling law, over a whole run: starting from a fresh
    /// dispatcher (cursor 0) over `n` alive destinations, the cursor stands
    /// at `rr_cursor(k, n)` before the `k`-th dispatch, and that dispatch
    /// delivers its batch to destination `k % n` — the `n` destinations are
    /// visited in the cyclic order 0, 1, ..., n-1, 0, ...
    pub proof fn lemma_round_robin_kth_dispatch(pre: Self, post: Self, ev: Seq<Out>, k: nat)
        requires
            pre.wf(),
            pre.dests().len() > 0,
            pre.c == rr_cursor(k, pre.dests().len() as int),
            Self::rr_ok_at(pre, post, ev, 0),
        ensures
            post.dests() == pre.dests(),
            post.c == rr_cursor((k + 1) as nat, pre.dests().len() as int),
            post.log() == pre.log().push(
                (pre.dests()[(k as int) % (pre.dests().len() as int)], ev),
            ),
    {
        lemma_round_robin_cyclic(k, pre.dests().len() as int);
    }

    /// Round-robin eviction law: a dispatch that found `m` dead destinations
    /// starting at the cursor removes exactly those `m` from the set, for
    /// good, and delivers the batch to the next alive destination in cyclic
    /// construction order: the one `m` cyclic steps past the cursor.
    pub proof fn lemma_round_robin_evicts_to_next_alive(pre: Self, post: Self, ev: Seq<Out>, m: int)
        requires
            pre.wf(),
            Self::rr_ok_at(pre, post, ev, m),
        ensures
            post.dests().len() == pre.dests().len() - m,
            post.log() == pre.log().push(
                (pre.dests()[cyclic_pos(pre.cur(), m, pre.dests().len() as int)], ev),
            ),
    {
        lemma_evict_run_len(pre.dests(), pre.cur(), m as nat);
        lemma_evict_run_candidate(pre.dests(), pre.cur(), m as nat);
    }
}

/// Wraps a candidate position back to 0 once it runs past the end of a
/// destination set of length `n`.
pub open spec fn clamp_pos(p: int, n: int) -> int {
    if p >= n {
        0
    } else {
        p
    }
}

/// The destination set left after a round-robin dispatch that started at
/// position `p` has evicted `m` dead destinations in a row: each eviction
/// removes the current candidate in place, and the candidate position wraps
/// to 0 whenever it runs past the shrunken set's end.
pub open spec fn evict_run<S>(d: Seq<S>, p: int, m: nat) -> Seq<S>
    decreases m,
{
    if m == 0 {
        d
    } else {
        evict_run(d.remove(clamp_pos(p, d.len() as int)), p, (m - 1) as nat)
    }
}

/// A run of evictions shrinks the destination set by exactly one entry each.
pub proof fn lemma_evict_run_len<S>(d: Seq<S>, p: int, m: nat)
    requires
        0 <= p,
        m <= d.len(),
    ensures
        evict_run(d, p, m).len() == d.len() - m,
    decreases m,
{
    if m > 0 {
        lemma_evict_run_len(d.remove(clamp_pos(p, d.len() as int)), p, (m - 1) as nat);
    }
}

/// Evicting once more removes the current candidate of the already-shrunken
/// set.
pub proof fn lemma_evict_run_step<S>(d: Seq<S>, p: int, m: nat)
    requires
        0 <= p,
        m < d.len(),
    ensures
        evict_run(d, p, (m + 1) as nat) == evict_run(d, p, m).remove(
            clamp_pos(p, d.len() - m),
        ),
    decreases m,
{
    let d2 = d.remove(clamp_pos(p, d.len() as int));
    if m == 0 {
        assert(evict_run(d, p, 1nat) == evict_run(d2, p, 0nat));
        assert(evict_run(d2, p, 0nat) == d2);
    } else {
        lemma_evict_run_step(d2, p, (m - 1) as nat);
        assert(evict_run(d, p, (m + 1) as nat) == evict_run(d2, p, m));
        assert(evict_run(d, p, m) == evict_run(d2, p, (m - 1) as nat));
    }
}

/// The position `m` steps after `p` in cyclic order over a set of length `n`.
pub open spec fn cyclic_pos(p: int, m: int, n: int) -> int {
    if p + m < n {
        p + m
    } else {
        p + m - n
    }
}

/// After a run of `m` evictions that started at position `p`, the candidate
/// left standing is the destination `m` steps past `p` in the cyclic order of
/// the original set: evictions walk the set in cyclic order and never skip an
/// entry.
pub proof fn lemma_evict_run_candidate<S>(d: Seq<S>, p: int, m: nat)
    requires
        0 <= p,
        m < d.len(),
    ensures
        evict_run(d, p, m)[clamp_pos(p, d.len() - m)] == d[cyclic_pos(
            clamp_pos(p, d.len() as int),
            m as int,
            d.len() as int,
        )],
    decreases m,
{
    lemma_evict_run_len(d, p, m);
    if m > 0 {
        let n = d.len() as int;
        let c0 = clamp_pos(p, n);
        let d2 = d.remove(c0);
        lemma_evict_run_candidate(d2, p, (m - 1) as nat);
        assert(evict_run(d, p, m) == evict_run(d2, p, (m - 1) as nat));
        assert(d2[cyclic_pos(clamp_pos(p, n - 1), m - 1, n - 1)] == d[cyclic_pos(c0, m as int, n)]);
    }
}

/// The cursor of a fresh round-robin dispatcher over `n` destinations after
/// `k` dispatches in which every send succeeded at once.
pub open spec fn rr_cursor(k: nat, n: int) -> int
    decreases k,
{
    if k == 0 {
        0
    } else {
        clamp_pos(rr_cursor((k - 1) as nat, n), n) + 1
    }
}

/// Round-robin cycling law: starting from a fresh dispatcher over `n` alive
/// destinations, the `k`-th dispatch (counting from 0, each succeeding
/// without eviction, so that the cursor follows `rr_cursor`) is delivered to
/// position `k % n`: the destinations are visited in cyclic construction
/// order 0, 1, ..., n-1, 0, ...
pub proof fn lemma_round_robin_cyclic(k: nat, n: int)
    requires
        n >= 1,
    ensures
        clamp_pos(rr_cursor(k, n), n) == (k as int) % n,
    decreases k,
{
    if k == 0 {
        assert(0int % n == 0) by {
            vstd::arithmetic::div_mod::lemma_small_mod(0nat, n as nat);
        }
    } else {
        let prev = (k - 1) as nat;
        lemma_round_robin_cyclic(prev, n);
        let c = clamp_pos(rr_cursor(prev, n), n);
        vstd::arithmetic::div_mod::lemma_fundamental_div_mod(prev as int, n);
        let q = (prev as int) / n;
        assert(k as int == n * q + (c + 1));
        if c + 1 < n {
            assert((n * q + (c + 1)) % n == (c + 1) % n) by {
                vstd::arithmetic::div_mod::lemma_mod_multiples_vanish(q, c + 1, n);
            }
            assert((c + 1) % n == c + 1) by {
                vstd::arithmetic::div_mod::lemma_small_mod((c + 1) as nat, n as nat);
            }
        } else {
            assert(n * (q + 1) == n * q + n) by (nonlinear_arith);
            assert(k as int == n * (q + 1) + 0);
            assert((n * (q + 1) + 0) % n == 0int % n) by {
                vstd::arithmetic::div_mod::lemma_mod_multiples_vanish(q + 1, 0, n);
            }
            assert(0int % n == 0) by {
                vstd::arithmetic::div_mod::lemma_small_mod(0nat, n as nat);
            }
        }
    }
}

/// The log entries one broadcast call appends: destinations are tried in
/// construction order, and each destination whose send went through (`ok` at
/// its position) gets one entry carrying a copy of the batch.
pub open spec fn bc_entries<Out>(
    d: Seq<tokio::sync::mpsc::Sender<Vec<Out>>>,
    ok: Seq<bool>,
    ev: Seq<Out>,
) -> Seq<(tokio::sync::mpsc::Sender<Vec<Out>>, Seq<Out>)>
    decreases d.len(),
{
    if d.len() == 0 {
        Seq::empty()
    } else if ok.last() {
        bc_entries(d.drop_last(), ok.drop_last(), ev).push((d.last(), ev))
    } else {
        bc_entries(d.drop_last(), ok.drop_last(), ev)
    }
}

/// Broadcast law: when every destination is alive (every send goes through),
/// one broadcast of `ev` to `N` destinations logs exactly one copy of `ev` to
/// each of the `N` destinations, in construction order.
pub proof fn lemma_broadcast_reaches_every_destination<Out>(
    d: Seq<tokio::sync::mpsc::Sender<Vec<Out>>>,
    ev: Seq<Out>,
)
    ensures
        bc_entries(d, Seq::new(d.len(), |i: int| true), ev) == Seq::new(
            d.len(),
            |i: int| (d[i], ev),
        ),
    decreases d.len(),
{
    let ok = Seq::new(d.len(), |i: int| true);
    let want = Seq::new(d.len(), |i: int| (d[i], ev));
    if d.len() > 0 {
        lemma_broadcast_reaches_every_destination(d.drop_last(), ev);
        assert(ok.drop_last() =~= Seq::new(d.drop_last().len(), |i: int| true));
        assert(Seq::new(d.drop_last().len(), |i: int| (d.drop_last()[i], ev)) =~= want.drop_last());
        assert(bc_entries(d, ok, ev) =~= want);
    } else {
        assert(bc_entries(d, ok, ev) =~= want);
    }
}

impl<Out: Clone> Dispatcher<Out> {
    /// Builds a dispatcher over the given destinations. Fails with
    /// `Status::SendersRepetitive` when two destinations reference the same
    /// mailbox; an empty destination set is accepted here (the owning stage
    /// rejects it one level up), and so is a singleton, which has no pair to
    /// collide.
    pub fn new(
        subscribe_to: Vec<tokio::sync::mpsc::Sender<Vec<Out>>>,
        dispatcher_type: DispatcherType,
    ) -> (r: Result<Self, Status>)
        ensures
            subscribe_to@.len() <= 1 ==> r is Ok,
            r matches Err(e) ==> e == Status::SendersRepetitive,
            r matches Ok(d) ==> d.wf() && d.c == 0 && d.dests() == subscribe_to@
                && d.strategy() == dispatcher_type && d.log() == Seq::<(
                tokio::sync::mpsc::Sender<Vec<Out>>,
                Seq<Out>,
            )>::empty(),
    {
        let repetitive = Dispatcher::check(&subscribe_to);
        Dispatcher::from_checked(subscribe_to, dispatcher_type, repetitive)
    }

    /// The outcome of construction, as a function of the duplicate scan's
    /// answer: construction succeeds exactly when no two destinations
    /// reference the same mailbox, and fails with `Status::SendersRepetitive`
    /// otherwise.
    pub fn from_checked(
        subscribe_to: Vec<tokio::sync::mpsc::Sender<Vec<Out>>>,
        dispatcher_type: DispatcherType,
        repetitive: bool,
    ) -> (r: Result<Self, Status>)
        ensures
            repetitive <==> (r matches Err(e) && e == Status::SendersRepetitive),
            !repetitive <==> (r matches Ok(d) && d.wf() && d.c == 0 && d.dests() == subscribe_to@
                && d.strategy() == dispatcher_type && d.log() == Seq::<(
                tokio::sync::mpsc::Sender<Vec<Out>>,
                Seq<Out>,
            )>::empty()),
    {
        if repetitive {
            Err(Status::SendersRepetitive)
        } else {
            Ok(
                Dispatcher {
                    c: 0,
                    subscribe_to,
                    dispatcher_type,
                    sent: Ghost(Seq::empty()),
                },
            )
        }
    }

    /// Delivers one batch per the configured strategy. Blocks while a full
    /// destination mailbox makes room; must run outside an async execution
    /// context. Fails only in round-robin mode, and only once every
    /// destination is gone, handing the batch back untouched.
    pub fn dispatch(&mut self, events: Vec<Out>) -> (r: Result<(), DestinationDown<Out>>)
        requires
            old(self).wf(),
            old(self).dests().len() > 0,
        ensures
            final(self).wf(),
            Self::dispatch_post(*old(self), *final(self), events@, r),
    {
        match self.dispatcher_type {
            DispatcherType::RoundRobin => self.roundrobin(events),
            DispatcherType::Broadcast => {
                self.broadcast(events);
                Ok(())
            },
        }
    }

    /// Round-robin delivery: try the destination at the cursor; evict a dead
    /// one in place and retry the same batch at the re-indexed position, until
    /// a send goes through or the set is exhausted.
    fn roundrobin(&mut self, events: Vec<Out>) -> (r: Result<(), DestinationDown<Out>>)
        requires
            old(self).wf(),
            old(self).dests().len() > 0,
        ensures
            final(self).wf(),
            Self::rr_post(*old(self), *final(self), events@, r),
    {
        let mut pending = events;
        let ghost pre = *old(self);
        let ghost ev0 = pending@;
        let ghost mut m: int = 0;
        loop
            invariant
                pre == *old(self),
                ev0 == events@,
                pre.wf(),
                pre.dests().len() > 0,
                0 <= m <= pre.dests().len() - 1,
                self.wf(),
                self.subscribe_to@.len() >= 1,
                self.subscribe_to@.len() == pre.dests().len() - m,
                self.subscribe_to@ == evict_run(pre.dests(), pre.cur(), m as nat),
                clamp_pos(self.c as int, self.subscribe_to@.len() as int) == clamp_pos(
                    pre.cur(),
                    self.subscribe_to@.len() as int,
                ),
                self.sent@ == pre.sent@,
                self.dispatcher_type == pre.dispatcher_type,
                pending@ == ev0,
            decreases self.subscribe_to.len(),
        {
            let n = self.subscribe_to.len();
            if self.c >= n {
                self.c = 0;
            }
            let index = self.c;
            match send_to(&self.subscribe_to[index], pending) {
                Ok(()) => {
                    self.c = index + 1;
                    self.sent = Ghost(self.sent@.push((self.subscribe_to@[index as int], ev0)));
                    proof {
                        assert(Self::rr_ok_at(pre, *self, ev0, m));
                    }
                    return Ok(());
                },
                Err(returned) => {
                    pending = returned;
                    self.subscribe_to.remove(index);
                    proof {
                        lemma_evict_run_step(pre.dests(), pre.cur(), m as nat);
                        m = m + 1;
                    }
                    if self.subscribe_to.len() == 0 {
                        return Err(DestinationDown(pending));
                    }
                },
            }
        }
    }

    /// Broadcast delivery: every destination gets its own copy of the batch
    /// (the last one receives the original); a dead destination is skipped
    /// silently, neither evicted nor reported.
    fn broadcast(&mut self, events: Vec<Out>)
        requires
            old(self).wf(),
            old(self).dests().len() > 0,
        ensures
            final(self).wf(),
            Self::bc_post(*old(self), *final(self), events@, Ok(())),
    {
        let ghost pre = *old(self);
        let ghost mut okflags: Seq<bool> = Seq::empty();
        let n = self.subscribe_to.len();
        let mut index: usize = 0;
        while index + 1 < n
            invariant
                pre.wf(),
                n == pre.dests().len(),
                n >= 1,
                index <= n - 1,
                okflags.len() == index,
                self.c == pre.c,
                self.subscribe_to@ == pre.dests(),
                self.dispatcher_type == pre.dispatcher_type,
                self.sent@ == pre.sent@ + bc_entries(
                    pre.dests().subrange(0, index as int),
                    okflags,
                    events@,
                ),
            decreases n - index,
        {
            let msg = events.clone();
            let delivered = match send_to(&self.subscribe_to[index], msg) {
                Ok(()) => true,
                Err(_) => false,
            };
            if delivered {
                self.sent = Ghost(self.sent@.push((self.subscribe_to@[index as int], events@)));
            }
            proof {
                let prefix = pre.dests().subrange(0, index as int);
                let prefix1 = pre.dests().subrange(0, index as int + 1);
                let prev = okflags;
                okflags = okflags.push(delivered);
                assert(prefix1.drop_last() =~= prefix);
                assert(okflags.drop_last() =~= prev);
                assert(self.sent@ =~= pre.sent@ + bc_entries(prefix1, okflags, events@));
            }
            index = index + 1;
        }
        let delivered = match send_to(&self.subscribe_to[n - 1], events) {
            Ok(()) => true,
            Err(_) => false,
        };
        if delivered {
            self.sent = Ghost(self.sent@.push((self.subscribe_to@[n - 1], events@)));
        }
        proof {
            let prev = okflags;
            okflags = okflags.push(delivered);
            assert(pre.dests().drop_last() =~= pre.dests().subrange(0, n as int - 1));
            assert(okflags.drop_last() =~= prev);
            assert(self.sent@ =~= pre.sent@ + bc_entries(pre.dests(), okflags, events@));
        }
    }

    /// Pairwise duplicate scan over the destination set: true when some two
    /// entries reference the same mailbox. The verdict itself comes from
    /// tokio's `same_channel` and is therefore not modelled further; but a
    /// set of fewer than two entries holds no pair, so it can never be
    /// repetitive.
    fn check(subscribe_to: &Vec<tokio::sync::mpsc::Sender<Vec<Out>>>) -> (repetitive: bool)
        ensures
            subscribe_to@.len() <= 1 ==> !repetitive,
    {
        let n = subscribe_to.len();
        let mut oindex: usize = 0;
        while oindex < n
            invariant
                n == subscribe_to@.len(),
            decreases n - oindex,
        {
            let mut iindex: usize = oindex + 1;
            while iindex < n
                invariant
                    n == subscribe_to@.len(),
                    oindex < n,
                    iindex > oindex,
                decreases n - iindex,
            {
                if same_mailbox(&subscribe_to[oindex], &subscribe_to[iindex]) {
                    return true;
                }
                iindex = iindex + 1;
            }
            oindex = oindex + 1;
        }
        false
    }
}

} // verus!
