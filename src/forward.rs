use vstd::prelude::*;

use crate::error::IoKind;

verus! {

/// Where one direction of forwarding stands.
#[derive(Debug, Clone, Copy, PartialEq, Eq, Structural)]
pub enum PumpPhase {
    /// Waiting for the next chunk from the source.
    Reading,
    /// Writing the last chunk read to the sink.
    Writing,
    /// The source ended; the sink's write half is to be closed.
    Closing,
    /// Everything the source produced reached the sink, and the sink was closed.
    Drained,
    /// A read or a write failed; this direction stops.
    Broken,
}

/// What the driver of a pump does next.
#[derive(Debug, Clone, Copy, PartialEq, Eq, Structural)]
pub enum PumpAction {
    /// Read a chunk from the source, then report `read` or `failed`.
    ReadSource,
    /// Write a prefix of `unsent()` to the sink, then report `wrote` or `failed`.
    WriteSink,
    /// Close the sink's write half, then report `sink_closed` or `failed`.
    CloseSink,
    /// This direction is over.
    Stop,
}

/// The abstract state of a pump.
pub struct PumpState {
    /// Everything read from the source so far, in order.
    pub received: Seq<u8>,
    /// Everything written to the sink so far, in order.
    pub delivered: Seq<u8>,
    pub phase: PumpPhase,
}

impl PumpState {
    pub open spec fn next_action(self) -> PumpAction {
        match self.phase {
            PumpPhase::Reading => PumpAction::ReadSource,
            PumpPhase::Writing => PumpAction::WriteSink,
            PumpPhase::Closing => PumpAction::CloseSink,
            _ => PumpAction::Stop,
        }
    }

    pub open spec fn is_over(self) -> bool {
        self.phase is Drained || self.phase is Broken
    }
}

/// One copy loop from a source stream to a sink stream. It never interprets
/// the bytes: what reaches the sink is always a prefix of what the source
/// produced, and the whole of it once the pump has drained.
pub struct Pump {
    chunk: Vec<u8>,
    done: usize,
    phase: PumpPhase,
    received: Ghost<Seq<u8>>,
    delivered: Ghost<Seq<u8>>,
}

impl View for Pump {
    type V = PumpState;

    closed spec fn view(&self) -> PumpState {
        PumpState { received: self.received@, delivered: self.delivered@, phase: self.phase }
    }
}

impl Pump {
    /// What the source produced and the sink has not yet been sent.
    pub closed spec fn in_flight(self) -> Seq<u8> {
        self.chunk@.subrange(self.done as int, self.chunk@.len() as int)
    }

    pub closed spec fn wf(self) -> bool {
        &&& self.done <= self.chunk@.len()
        &&& self.received@ == self.delivered@ + self.in_flight()
        &&& self.phase is Writing ==> self.done < self.chunk@.len()
        &&& !(self.phase is Writing || self.phase is Broken) ==> self.in_flight().len() == 0
    }

    pub fn new() -> (r: Pump)
        ensures
            r.wf(),
            r@ == (PumpState { received: Seq::empty(), delivered: Seq::empty(), phase: PumpPhase::Reading }),
    {
        Pump {
            chunk: Vec::new(),
            done: 0,
            phase: PumpPhase::Reading,
            received: Ghost(Seq::empty()),
            delivered: Ghost(Seq::empty()),
        }
    }

    pub fn phase(&self) -> (r: PumpPhase)
        ensures
            r == self@.phase,
    {
        self.phase
    }

    pub fn next_action(&self) -> (r: PumpAction)
        ensures
            r == self@.next_action(),
    {
        match self.phase {
            PumpPhase::Reading => PumpAction::ReadSource,
            PumpPhase::Writing => PumpAction::WriteSink,
            PumpPhase::Closing => PumpAction::CloseSink,
            _ => PumpAction::Stop,
        }
    }

    /// The bytes read from the source that the sink has not been sent yet.
    pub fn unsent(&self) -> (r: &[u8])
        requires
            self.wf(),
        ensures
            r@ == self.in_flight(),
            self@.delivered + r@ == self@.received,
            self@.phase is Writing ==> r@.len() > 0,
    {
        vstd::slice::slice_subrange(self.chunk.as_slice(), self.done, self.chunk.len())
    }

    /// A chunk was read from the source; an empty chunk is its end.
    pub fn read(&mut self, chunk: Vec<u8>)
        requires
            old(self).wf(),
            old(self)@.phase is Reading,
        ensures
            final(self).wf(),
            chunk@.len() == 0 ==> final(self)@ == (PumpState { phase: PumpPhase::Closing, ..old(self)@ }),
            chunk@.len() > 0 ==> final(self)@ == (PumpState {
                received: old(self)@.received + chunk@,
                phase: PumpPhase::Writing,
                ..old(self)@
            }),
    {
        if chunk.len() == 0 {
            self.phase = PumpPhase::Closing;
        } else {
            proof {
                self.received@ = self.received@ + chunk@;
                assert(chunk@.subrange(0, chunk@.len() as int) =~= chunk@);
            }
            self.chunk = chunk;
            self.done = 0;
            self.phase = PumpPhase::Writing;
        }
    }

    /// `n` more bytes of `unsent()` reached the sink. A write that accepts no
    /// byte breaks this direction.
    pub fn wrote(&mut self, n: usize)
        requires
            old(self).wf(),
            old(self)@.phase is Writing,
            n <= old(self).in_flight().len(),
        ensures
            final(self).wf(),
            n == 0 ==> final(self)@ == (PumpState { phase: PumpPhase::Broken, ..old(self)@ }),
            n > 0 ==> final(self)@.received == old(self)@.received,
            n > 0 ==> final(self)@.delivered == old(self)@.delivered + old(self).in_flight().subrange(0, n as int),
            n > 0 ==> (final(self)@.phase is Reading <==> n == old(self).in_flight().len()),
            n > 0 ==> (final(self)@.phase is Writing <==> n < old(self).in_flight().len()),
    {
        if n == 0 {
            self.phase = PumpPhase::Broken;
        } else {
            let ghost before = self.in_flight();
            proof {
                self.delivered@ = self.delivered@ + before.subrange(0, n as int);
            }
            let len = self.chunk.len();
            assert(self.done + n <= len);
            self.done = self.done + n;
            assert(before =~= before.subrange(0, n as int) + self.in_flight());
            assert(self.received@ =~= self.delivered@ + self.in_flight());
            if self.done == len {
                self.phase = PumpPhase::Reading;
            }
        }
    }

    /// The sink's write half was closed after the source ended.
    pub fn sink_closed(&mut self)
        requires
            old(self).wf(),
            old(self)@.phase is Closing,
        ensures
            final(self).wf(),
            final(self)@ == (PumpState { phase: PumpPhase::Drained, ..old(self)@ }),
    {
        self.phase = PumpPhase::Drained;
    }

    /// The operation asked for failed; a pump that is over stays as it is.
    pub fn failed(&mut self)
        requires
            old(self).wf(),
        ensures
            final(self).wf(),
            !old(self)@.is_over() ==> final(self)@ == (PumpState { phase: PumpPhase::Broken, ..old(self)@ }),
            old(self)@.is_over() ==> final(self)@ == old(self)@,
    {
        if !(self.phase == PumpPhase::Drained || self.phase == PumpPhase::Broken) {
            self.phase = PumpPhase::Broken;
        }
    }

    /// What reached the sink is always what the source produced, cut short
    /// at most; a drained pump delivered all of it.
    pub proof fn delivered_prefix(&self)
        requires
            self.wf(),
        ensures
            self@.delivered.len() <= self@.received.len(),
            self@.delivered == self@.received.subrange(0, self@.delivered.len() as int),
            self@.phase is Drained ==> self@.delivered == self@.received,
    {
        assert(self@.delivered =~= self@.received.subrange(0, self@.delivered.len() as int));
        if self@.phase is Drained {
            assert(self@.received =~= self@.delivered);
        }
    }
}

/// What the handler of one accepted connection does next.
#[derive(Debug, Clone, Copy, PartialEq, Eq, Structural)]
pub enum HandlerAction {
    /// Keep both copy loops running.
    Forward,
    /// The backend's output is over: stop the peer-to-backend loop.
    StopInbound,
    /// Both loops are over: collect the backend's exit status.
    Reap,
    /// Everything is over: close the connection and return.
    Return,
}

/// The life of one accepted connection: bytes go from the peer to the
/// backend (inbound) and from the backend to the peer (outbound) until the
/// backend ends its output or the peer goes away; then both loops end and
/// the backend process is reaped before the handler returns.
#[derive(Debug, Clone, Copy, PartialEq, Eq, Structural)]
pub struct Handler {
    pub inbound_over: bool,
    pub outbound_over: bool,
    pub reaped: bool,
}

pub open spec fn handler_action(h: Handler) -> HandlerAction {
    if !h.outbound_over {
        HandlerAction::Forward
    } else if !h.inbound_over {
        HandlerAction::StopInbound
    } else if !h.reaped {
        HandlerAction::Reap
    } else {
        HandlerAction::Return
    }
}

impl Handler {
    pub fn new() -> (r: Handler)
        ensures
            r == (Handler { inbound_over: false, outbound_over: false, reaped: false }),
    {
        Handler { inbound_over: false, outbound_over: false, reaped: false }
    }

    /// The handler returns only once both copy loops are over and the
    /// backend has been reaped.
    pub fn next_action(&self) -> (r: HandlerAction)
        ensures
            r == handler_action(*self),
            r == HandlerAction::Return <==> (self.inbound_over && self.outbound_over && self.reaped),
    {
        if !self.outbound_over {
            HandlerAction::Forward
        } else if !self.inbound_over {
            HandlerAction::StopInbound
        } else if !self.reaped {
            HandlerAction::Reap
        } else {
            HandlerAction::Return
        }
    }
}

/// What the listening server does after an `accept`.
#[derive(Debug, Clone, Copy, PartialEq, Eq, Structural)]
pub enum AcceptStep {
    /// Hand the new connection to a handler of its own and keep accepting.
    Serve,
    /// Report the failure and keep accepting.
    Skip,
}

/// A failed accept is reported and the loop goes on: nothing that happens
/// to one connection stops the server.
pub fn after_accept(outcome: Result<(), IoKind>) -> (r: AcceptStep)
    ensures
        outcome is Ok ==> r == AcceptStep::Serve,
        outcome is Err ==> r == AcceptStep::Skip,
{
    match outcome {
        Ok(()) => AcceptStep::Serve,
        Err(_) => AcceptStep::Skip,
    }
}

} // verus!
