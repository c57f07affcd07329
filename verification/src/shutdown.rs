//! The shutdown coordinator: the state machine that gates the accept loop.
//!
//! The coordinator starts `Accepting`. The instant the externally supplied
//! shutdown signal resolves it moves to `Draining` (or straight to `Stopped`
//! when nothing is in flight); it reaches the terminal `Stopped` only once
//! every connection accepted earlier has finished. Draining waits unboundedly:
//! there is no forced cutoff for in-flight work. The coordinator holds no
//! instrument state.

use vstd::prelude::*;

verus! {

/// The coordinator's phase: `Accepting` (initial), `Draining`, `Stopped`
/// (terminal).
#[derive(Clone, Copy, PartialEq, Eq, Structural)]
pub enum Phase {
    Accepting,
    Draining,
    Stopped,
}

/// The events the coordinator reacts to: a connection asking to be accepted,
/// the shutdown signal resolving, and an accepted connection finishing its
/// work.
#[derive(Clone, Copy, PartialEq, Eq, Structural)]
pub enum Event {
    Accept,
    Signal,
    Finish,
}

/// The mathematical state of the coordinator: its phase and how many accepted
/// connections have not finished yet.
pub struct CoordModel {
    pub phase: Phase,
    pub inflight: nat,
}

/// The model of a fresh coordinator: accepting, nothing in flight.
pub open spec fn coord_init() -> CoordModel {
    CoordModel { phase: Phase::Accepting, inflight: 0 }
}

/// One transition of the coordinator. An accept is granted only while
/// `Accepting`; the signal moves `Accepting` to `Draining` (or directly to
/// `Stopped` when nothing is in flight) and is idempotent afterwards; a
/// finish releases one in-flight connection, and the last one out of a
/// draining coordinator stops it.
pub open spec fn coord_step(c: CoordModel, e: Event) -> CoordModel {
    match e {
        Event::Accept => {
            if c.phase == Phase::Accepting {
                CoordModel { phase: c.phase, inflight: c.inflight + 1 }
            } else {
                c
            }
        },
        Event::Signal => {
            if c.phase == Phase::Accepting {
                if c.inflight == 0 {
                    CoordModel { phase: Phase::Stopped, inflight: 0 }
                } else {
                    CoordModel { phase: Phase::Draining, inflight: c.inflight }
                }
            } else {
                c
            }
        },
        Event::Finish => {
            if c.inflight > 0 {
                if c.phase == Phase::Draining && c.inflight == 1 {
                    CoordModel { phase: Phase::Stopped, inflight: 0 }
                } else {
                    CoordModel { phase: c.phase, inflight: (c.inflight - 1) as nat }
                }
            } else {
                c
            }
        },
    }
}

/// Whether an accept is granted in state `c`.
pub open spec fn accept_granted(c: CoordModel) -> bool {
    c.phase == Phase::Accepting
}

/// Well-formed: a stopped coordinator has nothing in flight — it only stops
/// once every accepted connection has finished.
pub open spec fn coord_wf(c: CoordModel) -> bool {
    c.phase == Phase::Stopped ==> c.inflight == 0
}

/// The shutdown coordinator as the acceptor holds it.
pub struct Coordinator {
    phase: Phase,
    inflight: u64,
}

impl View for Coordinator {
    type V = CoordModel;

    closed spec fn view(&self) -> CoordModel {
        CoordModel { phase: self.phase, inflight: self.inflight as nat }
    }
}

impl Coordinator {
    /// A fresh coordinator: accepting, nothing in flight.
    pub fn new() -> (r: Coordinator)
        ensures
            r@ === coord_init(),
    {
        Coordinator { phase: Phase::Accepting, inflight: 0 }
    }

    /// The current phase.
    pub fn phase(&self) -> (r: Phase)
        ensures
            r == self@.phase,
    {
        self.phase
    }

    /// How many accepted connections have not finished yet.
    pub fn inflight(&self) -> (r: u64)
        ensures
            r as nat == self@.inflight,
    {
        self.inflight
    }

    /// Ask to accept one connection: granted exactly while accepting, and a
    /// granted connection is counted in flight until it finishes.
    pub fn try_accept(&mut self) -> (granted: bool)
        requires
            old(self)@.inflight < u64::MAX,
        ensures
            granted == accept_granted(old(self)@),
            final(self)@ === coord_step(old(self)@, Event::Accept),
    {
        match self.phase {
            Phase::Accepting => {
                self.inflight = self.inflight + 1;
                true
            },
            _ => false,
        }
    }

    /// The shutdown signal resolved: stop accepting from this point on.
    pub fn signal(&mut self)
        ensures
            final(self)@ === coord_step(old(self)@, Event::Signal),
    {
        if matches!(self.phase, Phase::Accepting) {
            if self.inflight == 0 {
                self.phase = Phase::Stopped;
            } else {
                self.phase = Phase::Draining;
            }
        }
    }

    /// One accepted connection finished producing its response.
    pub fn finish_connection(&mut self)
        requires
            old(self)@.inflight > 0,
        ensures
            final(self)@ === coord_step(old(self)@, Event::Finish),
    {
        self.inflight = self.inflight - 1;
        if matches!(self.phase, Phase::Draining) && self.inflight == 0 {
            self.phase = Phase::Stopped;
        }
    }
}

} // verus!
