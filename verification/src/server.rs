//! The driver's main loop: takes requests from the script host, one per
//! tick, and shuts the consoles down when asked to stop.

use crate::msg::MsgReq;
use crate::service::{stop_list, ConsoleKind, Service, ServiceView};
use vstd::prelude::*;

verus! {

/// The length of a tick, in milliseconds.
pub const TICK_MS: u64 = 16;

/// Pause of a tick that found no request, in milliseconds.
pub const IDLE_MS: u64 = 20;

/// What the inbox of requests holds at a tick.
#[derive(Debug)]
pub enum Inbox {
    Request(MsgReq),
    Empty,
    /// The script host is gone.
    Disconnected,
}

/// What a tick asks for.
#[derive(Debug)]
pub enum Tick {
    /// Hand the request to a worker of its own.
    Work(MsgReq),
    /// Sleep this many milliseconds.
    Idle(u64),
    /// The loop is over.
    Exit,
}

/// Abstract state of a [`Server`].
pub struct ServerView {
    pub repo: ServiceView,
    /// Whether the loop has ended.
    pub stopped: bool,
}

/// The main loop's state: the service and whether the loop has ended.
pub struct Server {
    repo: Service,
    stopped: bool,
}

impl View for Server {
    type V = ServerView;

    closed spec fn view(&self) -> ServerView {
        ServerView { repo: self.repo@, stopped: self.stopped }
    }
}

impl Server {
    /// A loop around this service.
    pub fn new(repo: Service) -> (s: Server)
        ensures
            s@ == (ServerView { repo: repo@, stopped: false }),
    {
        Server { repo, stopped: false }
    }

    /// The service, for the workers.
    pub fn repo(&self) -> (r: &Service)
        ensures
            r@ == self@.repo,
    {
        &self.repo
    }

    /// The service, for the worker that connects the consoles.
    pub fn repo_mut(&mut self) -> (r: &mut Service)
        ensures
            r@ == old(self)@.repo,
            final(self)@ == (ServerView { repo: final(r)@, ..old(self)@ }),
    {
        &mut self.repo
    }

    /// Looks at the stop signal at the start of a tick. When it is there the
    /// loop ends: the consoles that are connected are to be stopped, the SSH
    /// shell first, then the serial line, then the screen, each one once, and
    /// none of them counts as connected afterwards. Without the signal
    /// nothing changes.
    pub fn try_stop(&mut self, signalled: bool) -> (r: Option<Vec<ConsoleKind>>)
        ensures
            signalled ==> {
                &&& r matches Some(list)
                &&& list@ == stop_list(old(self)@.repo)
                &&& final(self)@ == (ServerView {
                    repo: ServiceView { ssh: false, serial: false, vnc: false, ..old(self)@.repo },
                    stopped: true,
                })
            },
            !signalled ==> r is None && final(self)@ == old(self)@,
    {
        if signalled {
            let list = self.repo.stop_all();
            self.stopped = true;
            Some(list)
        } else {
            None
        }
    }

    /// The rest of a tick, after the stop signal was looked at: a request
    /// goes to a worker, an empty inbox gives a pause of [`IDLE_MS`], and the
    /// loop ends when the script host is gone or the loop has been stopped.
    pub fn pool(&mut self, inbox: Inbox) -> (t: Tick)
        ensures
            final(self)@.repo == old(self)@.repo,
            final(self)@.stopped == (old(self)@.stopped || inbox is Disconnected),
            old(self)@.stopped ==> t is Exit,
            !old(self)@.stopped ==> match inbox {
                Inbox::Request(req) => t == Tick::Work(req),
                Inbox::Empty => t == Tick::Idle(IDLE_MS),
                Inbox::Disconnected => t is Exit,
            },
    {
        if self.stopped {
            return Tick::Exit;
        }
        match inbox {
            Inbox::Request(req) => Tick::Work(req),
            Inbox::Empty => Tick::Idle(IDLE_MS),
            Inbox::Disconnected => {
                self.stopped = true;
                Tick::Exit
            },
        }
    }

    /// How long to sleep at the end of a tick that began at `began`, so that
    /// the tick lasts [`TICK_MS`]: nothing if it has lasted as long already.
    pub fn rest_of_tick(began: u64, now: u64) -> (ms: u64)
        ensures
            now < began ==> ms == TICK_MS,
            now >= began && now - began >= TICK_MS ==> ms == 0,
            now >= began && now - began < TICK_MS ==> ms == TICK_MS - (now - began),
    {
        if now >= began {
            let spent: u64 = now - began;
            if spent >= TICK_MS {
                0
            } else {
                TICK_MS - spent
            }
        } else {
            TICK_MS
        }
    }
}

} // verus!
