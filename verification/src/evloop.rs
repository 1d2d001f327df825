//! The event loop of one byte-stream console.
//!
//! The loop owns an append-only history of everything the device has sent and
//! answers four kinds of request against it. The functions here decide; the
//! thread that drives the loop reads the device, keeps the clock and moves the
//! bytes of [`EventLoop::take_outgoing`] to the device.

use vstd::prelude::*;
use vstd::slice::slice_to_vec;

verus! {

/// Minimum time between two served requests, in milliseconds.
pub const MIN_INTERVAL_MS: u64 = 1000;

/// How long the driver sleeps when no request is due yet, in milliseconds.
pub const IDLE_SLEEP_MS: u64 = 10;

/// Size of the scratch buffer a driver reads the device into.
pub const READ_BUFFER_SIZE: usize = 4096;

/// A request to the event loop.
#[derive(Debug)]
pub enum Req {
    /// Send these bytes to the device.
    Write(Vec<u8>),
    /// Everything the device has sent since the previous `Read`.
    Read,
    /// Everything the device has sent so far.
    Dump,
    /// End the loop.
    Stop,
}

/// The answer to a [`Req`].
#[derive(Debug)]
pub enum Res {
    Done,
    Value(Vec<u8>),
}

/// The loop has ended; no answer will come.
#[derive(Debug, Clone, Copy, PartialEq, Eq, Structural)]
pub struct RecvError;

/// What one non-blocking read of the device gave.
#[derive(Debug)]
pub enum ReadOutcome {
    /// The bytes that were read; none when the device had nothing to say.
    Data(Vec<u8>),
    /// The read timed out.
    TimedOut,
    /// Any other read error.
    Failed,
}

/// What the driver does after the read of one round.
#[derive(Debug, Clone, Copy, PartialEq, Eq, Structural)]
pub enum PoolStep {
    /// The loop has ended.
    Exit,
    /// No request is due yet: sleep [`IDLE_SLEEP_MS`] and start the next round.
    Wait,
    /// Take at most one pending request and hand it to [`EvLoopCtl::send`].
    Serve,
}

/// Abstract state of an [`EventLoop`].
pub struct EventLoopView {
    /// Everything read from the device, oldest byte first.
    pub history: Seq<u8>,
    /// How much of `history` earlier `Read` requests have delivered.
    pub last_read_index: nat,
    /// Bytes accepted by `Write` requests that the driver has not taken yet.
    pub outgoing: Seq<u8>,
    /// No request is served before this instant.
    pub next_round: u64,
    /// Whether the loop has ended.
    pub stopped: bool,
}

impl EventLoopView {
    /// The bytes a `Read` request would deliver.
    pub open spec fn unread(self) -> Seq<u8> {
        self.history.subrange(self.last_read_index as int, self.history.len() as int)
    }

    /// The history only grows and the read index never moves back nor past
    /// the end of the history.
    pub open spec fn extends(self, before: EventLoopView) -> bool {
        &&& before.history.is_prefix_of(self.history)
        &&& before.last_read_index <= self.last_read_index <= self.history.len()
        &&& before.stopped ==> self.stopped
    }
}

/// State of the event loop of one device.
pub struct EventLoop {
    /// The part of the history that `Read` requests have delivered.
    delivered: Vec<u8>,
    /// The rest of the history.
    unread: Vec<u8>,
    outgoing: Vec<u8>,
    next_round: u64,
    stopped: bool,
}

impl View for EventLoop {
    type V = EventLoopView;

    closed spec fn view(&self) -> EventLoopView {
        EventLoopView {
            history: self.delivered@ + self.unread@,
            last_read_index: self.delivered@.len(),
            outgoing: self.outgoing@,
            next_round: self.next_round,
            stopped: self.stopped,
        }
    }
}

impl EventLoop {
    /// A loop that has read nothing and serves its first request no earlier
    /// than [`MIN_INTERVAL_MS`] after `now`.
    pub fn spawn(now: u64) -> (lp: EventLoop)
        ensures
            lp@.history == Seq::<u8>::empty(),
            lp@.last_read_index == 0,
            lp@.outgoing == Seq::<u8>::empty(),
            lp@.next_round == deadline_after(now, MIN_INTERVAL_MS),
            !lp@.stopped,
    {
        EventLoop {
            delivered: Vec::new(),
            unread: Vec::new(),
            outgoing: Vec::new(),
            next_round: now.saturating_add(MIN_INTERVAL_MS),
            stopped: false,
        }
    }

    /// The whole history.
    pub fn history(&self) -> (h: Vec<u8>)
        ensures
            h@ == self@.history,
    {
        let mut h = slice_to_vec(self.delivered.as_slice());
        h.extend_from_slice(self.unread.as_slice());
        assert(h@ =~= self.delivered@ + self.unread@);
        h
    }

    /// How much of the history `Read` requests have delivered.
    pub fn last_read_index(&self) -> (i: usize)
        ensures
            i == self@.last_read_index,
            i <= self@.history.len(),
    {
        self.delivered.len()
    }

    /// Whether the loop has ended.
    pub fn is_stopped(&self) -> (b: bool)
        ensures
            b == self@.stopped,
    {
        self.stopped
    }

    /// One round of the loop up to the point where a request may be taken:
    /// records what the read gave, then decides by the clock whether a request
    /// is due. Returns the bytes to append to the console log with the step.
    ///
    /// A failed read ends the loop. A request is due when `now` has reached
    /// the loop's next round; the round after it is then scheduled
    /// [`MIN_INTERVAL_MS`] later.
    pub fn pool(&mut self, now: u64, outcome: ReadOutcome) -> (r: (Vec<u8>, PoolStep))
        ensures
            final(self)@.extends(old(self)@),
            final(self)@.outgoing == old(self)@.outgoing,
            final(self)@.last_read_index == old(self)@.last_read_index,
            old(self)@.stopped ==> r.1 == PoolStep::Exit && r.0@.len() == 0 && final(self)@
                == old(self)@,
            !old(self)@.stopped ==> {
                &&& r.0@ == received(outcome)
                &&& final(self)@.history == old(self)@.history + received(outcome)
                &&& final(self)@.stopped == (outcome is Failed)
                &&& r.1 == if outcome is Failed {
                    PoolStep::Exit
                } else if now < old(self)@.next_round {
                    PoolStep::Wait
                } else {
                    PoolStep::Serve
                }
                &&& final(self)@.next_round == if r.1 == PoolStep::Serve {
                    deadline_after(now, MIN_INTERVAL_MS)
                } else {
                    old(self)@.next_round
                }
            },
    {
        if self.stopped {
            return (Vec::new(), PoolStep::Exit);
        }
        match self.try_read_buffer(outcome) {
            Err(_) => (Vec::new(), PoolStep::Exit),
            Ok(received) => {
                if now < self.next_round {
                    (received, PoolStep::Wait)
                } else {
                    self.next_round = now.saturating_add(MIN_INTERVAL_MS);
                    (received, PoolStep::Serve)
                }
            },
        }
    }

    /// Answers one request other than `Stop` (which [`EvLoopCtl::send`]
    /// handles before it gets here; it is answered `Done` and changes nothing).
    ///
    /// `Write` queues the bytes for the device, `Read` delivers what no earlier
    /// `Read` has delivered, `Dump` delivers the whole history.
    pub fn handle_req(&mut self, req: Req) -> (res: Res)
        ensures
            final(self)@.extends(old(self)@),
            final(self)@.history == old(self)@.history,
            final(self)@.next_round == old(self)@.next_round,
            final(self)@.stopped == old(self)@.stopped,
            match req {
                Req::Stop => res == Res::Done && final(self)@ == old(self)@,
                Req::Write(msg) => {
                    &&& res == Res::Done
                    &&& final(self)@.outgoing == old(self)@.outgoing + msg@
                    &&& final(self)@.last_read_index == old(self)@.last_read_index
                },
                Req::Read => {
                    &&& res matches Res::Value(v)
                    &&& v@ == old(self)@.unread()
                    &&& final(self)@.last_read_index == old(self)@.history.len()
                    &&& final(self)@.outgoing == old(self)@.outgoing
                },
                Req::Dump => {
                    &&& res matches Res::Value(v)
                    &&& v@ == old(self)@.history
                    &&& final(self)@ == old(self)@
                },
            },
    {
        match req {
            Req::Stop => Res::Done,
            Req::Write(msg) => {
                self.outgoing.extend_from_slice(msg.as_slice());
                assert(self.outgoing@ =~= old(self).outgoing@ + msg@);
                Res::Done
            },
            Req::Read => Res::Value(self.consume_buffer()),
            Req::Dump => Res::Value(self.history()),
        }
    }

    /// Records the outcome of one read of the device. Returns the bytes that
    /// were appended to the history, or an error when the read failed, which
    /// ends the loop. A timed-out read is no error: it appends nothing.
    pub fn try_read_buffer(&mut self, outcome: ReadOutcome) -> (r: Result<Vec<u8>, RecvError>)
        ensures
            final(self)@.extends(old(self)@),
            final(self)@.history == old(self)@.history + received(outcome),
            final(self)@.last_read_index == old(self)@.last_read_index,
            final(self)@.outgoing == old(self)@.outgoing,
            final(self)@.next_round == old(self)@.next_round,
            final(self)@.stopped == (old(self)@.stopped || outcome is Failed),
            r is Err <==> outcome is Failed,
            r matches Ok(v) ==> v@ == received(outcome),
    {
        match outcome {
            ReadOutcome::Data(bytes) => {
                self.unread.extend_from_slice(bytes.as_slice());
                assert(self@.history =~= old(self)@.history + bytes@);
                Ok(bytes)
            },
            ReadOutcome::TimedOut => {
                assert(self@.history =~= old(self)@.history + Seq::<u8>::empty());
                Ok(Vec::new())
            },
            ReadOutcome::Failed => {
                assert(self@.history =~= old(self)@.history + Seq::<u8>::empty());
                self.stopped = true;
                Err(RecvError)
            },
        }
    }

    /// Delivers the part of the history that no earlier call has delivered.
    pub fn consume_buffer(&mut self) -> (v: Vec<u8>)
        ensures
            v@ == old(self)@.unread(),
            final(self)@.extends(old(self)@),
            final(self)@.history == old(self)@.history,
            final(self)@.last_read_index == old(self)@.history.len(),
            final(self)@.outgoing == old(self)@.outgoing,
            final(self)@.next_round == old(self)@.next_round,
            final(self)@.stopped == old(self)@.stopped,
    {
        let v = slice_to_vec(self.unread.as_slice());
        self.delivered.append(&mut self.unread);
        assert(self@.history =~= old(self)@.history);
        assert(v@ =~= old(self)@.unread());
        v
    }

    /// Hands over the bytes that `Write` requests have queued since the last
    /// call, in the order in which they were queued.
    pub fn take_outgoing(&mut self) -> (out: Vec<u8>)
        ensures
            out@ == old(self)@.outgoing,
            final(self)@.outgoing == Seq::<u8>::empty(),
            final(self)@.extends(old(self)@),
            final(self)@.history == old(self)@.history,
            final(self)@.last_read_index == old(self)@.last_read_index,
            final(self)@.next_round == old(self)@.next_round,
            final(self)@.stopped == old(self)@.stopped,
    {
        let out = slice_to_vec(self.outgoing.as_slice());
        self.outgoing.clear();
        out
    }

    /// Takes in how moving the queued bytes to the device went, writing and
    /// flushing alike. If the device took them, the answer is for the
    /// requester. If it refused them, the loop ends and the answer is kept
    /// back, so that the requester learns that the loop is gone.
    pub fn after_write(&mut self, moved: bool, answer: Res) -> (r: Option<Res>)
        ensures
            final(self)@.extends(old(self)@),
            moved ==> r == Some(answer) && final(self)@ == old(self)@,
            !moved ==> r is None && final(self)@ == (EventLoopView {
                stopped: true,
                ..old(self)@
            }),
    {
        if moved {
            Some(answer)
        } else {
            self.fail();
            None
        }
    }

    /// Ends the loop: the device refused a write.
    pub fn fail(&mut self)
        ensures
            final(self)@.stopped,
            final(self)@.extends(old(self)@),
            final(self)@.history == old(self)@.history,
            final(self)@.last_read_index == old(self)@.last_read_index,
            final(self)@.outgoing == old(self)@.outgoing,
            final(self)@.next_round == old(self)@.next_round,
    {
        self.stopped = true;
    }
}

/// Across any run of steps the history only grows and the read index never
/// moves back nor past the end of the history: what holds of each step holds
/// of two in a row.
pub proof fn lemma_extends_is_transitive(a: EventLoopView, b: EventLoopView, c: EventLoopView)
    requires
        b.extends(a),
        c.extends(b),
    ensures
        c.extends(a),
{
}

/// The bytes that a read outcome adds to the history.
pub open spec fn received(outcome: ReadOutcome) -> Seq<u8> {
    match outcome {
        ReadOutcome::Data(bytes) => bytes@,
        _ => Seq::<u8>::empty(),
    }
}

/// The instant `span` milliseconds after `now`, held at the clock's maximum.
pub open spec fn deadline_after(now: u64, span: u64) -> u64 {
    if now + span > u64::MAX {
        u64::MAX
    } else {
        (now + span) as u64
    }
}

/// The handle through which requests reach an event loop.
pub struct EvLoopCtl {
    lp: EventLoop,
}

impl View for EvLoopCtl {
    type V = EventLoopView;

    closed spec fn view(&self) -> EventLoopView {
        self.lp@
    }
}

impl EvLoopCtl {
    /// A handle to a fresh loop, started at `now`.
    pub fn new(now: u64) -> (ctl: EvLoopCtl)
        ensures
            ctl@.history == Seq::<u8>::empty(),
            ctl@.last_read_index == 0,
            ctl@.outgoing == Seq::<u8>::empty(),
            ctl@.next_round == deadline_after(now, MIN_INTERVAL_MS),
            !ctl@.stopped,
    {
        EvLoopCtl { lp: EventLoop::spawn(now) }
    }

    /// Sends one request to the loop and returns its answer.
    ///
    /// A loop that has ended answers nothing: the request is lost and the
    /// caller learns that the loop is gone. `Stop` is answered `Done` and ends
    /// the loop. Any other request is answered as [`EventLoop::handle_req`]
    /// says. The answer to a `Write` is for the requester only once the
    /// driver has moved the queued bytes to the device, as
    /// [`EventLoop::after_write`] says.
    pub fn send(&mut self, req: Req) -> (r: Result<Res, RecvError>)
        ensures
            final(self)@.extends(old(self)@),
            final(self)@.history == old(self)@.history,
            final(self)@.next_round == old(self)@.next_round,
            r is Err <==> old(self)@.stopped,
            old(self)@.stopped ==> final(self)@ == old(self)@,
            !old(self)@.stopped ==> match req {
                Req::Stop => {
                    &&& r == Ok::<Res, RecvError>(Res::Done)
                    &&& final(self)@ == EventLoopView { stopped: true, ..old(self)@ }
                },
                Req::Write(msg) => {
                    &&& r == Ok::<Res, RecvError>(Res::Done)
                    &&& final(self)@ == EventLoopView {
                        outgoing: old(self)@.outgoing + msg@,
                        ..old(self)@
                    }
                },
                Req::Read => {
                    &&& r matches Ok(Res::Value(v))
                    &&& v@ == old(self)@.unread()
                    &&& final(self)@ == EventLoopView {
                        last_read_index: old(self)@.history.len(),
                        ..old(self)@
                    }
                },
                Req::Dump => {
                    &&& r matches Ok(Res::Value(v))
                    &&& v@ == old(self)@.history
                    &&& final(self)@ == old(self)@
                },
            },
    {
        if self.lp.is_stopped() {
            return Err(RecvError);
        }
        match req {
            Req::Stop => {
                self.lp.fail();
                Ok(Res::Done)
            },
            other => Ok(self.lp.handle_req(other)),
        }
    }

    /// The loop behind this handle, for the thread that drives it.
    pub fn event_loop(&mut self) -> (lp: &mut EventLoop)
        ensures
            lp@ == old(self)@,
            final(lp)@ == final(self)@,
    {
        &mut self.lp
    }
}

} // verus!
