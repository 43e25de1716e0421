use vstd::prelude::*;

use crate::error::{connect_failure, connect_failure_spec, BridgeError, IoKind};

verus! {

/// Where a relay exchange stands.
#[derive(Debug, Clone, Copy, PartialEq, Eq, Structural)]
pub enum RelayPhase {
    /// The connection is not open yet.
    Connecting,
    /// The payload is being written.
    Writing,
    /// The payload was written and the write half closed; the reply is being read.
    Reading,
    /// The peer ended its reply.
    Done,
    /// The exchange failed; the connection is to be closed.
    Failed(BridgeError),
}

/// What the driver of a relay exchange does next.
#[derive(Debug, Clone, Copy, PartialEq, Eq, Structural)]
pub enum RelayAction {
    /// Open the connection, then report `connected` or `failed`.
    Connect,
    /// Write a prefix of `unsent()`, then report `wrote` or `failed`.
    Write,
    /// Signal that no more data is coming, then report `write_closed` or `failed`.
    CloseWrite,
    /// Read the next chunk of the reply, then report `received` or `failed`.
    Read,
    /// Close the connection and take the outcome with `finish`.
    Finish,
}

/// The abstract state of a relay exchange.
pub struct RelayState {
    /// The bytes to send, fixed when the exchange starts.
    pub payload: Seq<u8>,
    /// How many bytes of the payload the peer has been sent.
    pub sent: nat,
    /// The bytes of the reply read so far, in order.
    pub reply: Seq<u8>,
    pub phase: RelayPhase,
}

impl RelayState {
    /// The write phase ends before the read phase begins: nothing is read
    /// before the whole payload is written, and the payload is written in order.
    pub open spec fn wf(self) -> bool {
        &&& self.sent <= self.payload.len()
        &&& (self.phase is Reading || self.phase is Done) ==> self.sent == self.payload.len()
        &&& (self.phase is Connecting || self.phase is Writing) ==> self.reply.len() == 0
        &&& self.phase is Connecting ==> self.sent == 0
    }

    /// The bytes that reached the peer.
    pub open spec fn written(self) -> Seq<u8> {
        self.payload.subrange(0, self.sent as int)
    }

    pub open spec fn next_action(self) -> RelayAction {
        match self.phase {
            RelayPhase::Connecting => RelayAction::Connect,
            RelayPhase::Writing => if self.sent < self.payload.len() {
                RelayAction::Write
            } else {
                RelayAction::CloseWrite
            },
            RelayPhase::Reading => RelayAction::Read,
            _ => RelayAction::Finish,
        }
    }

    pub open spec fn outcome(self) -> Result<Seq<u8>, BridgeError> {
        match self.phase {
            RelayPhase::Failed(e) => Err(e),
            _ => Ok(self.reply),
        }
    }
}

/// One relay exchange from the client side: send a payload over a fresh
/// connection, close the write half, and read the reply until the peer ends it.
pub struct RelayClient {
    payload: Vec<u8>,
    sent: usize,
    reply: Vec<u8>,
    phase: RelayPhase,
}

impl View for RelayClient {
    type V = RelayState;

    closed spec fn view(&self) -> RelayState {
        RelayState { payload: self.payload@, sent: self.sent as nat, reply: self.reply@, phase: self.phase }
    }
}

impl RelayClient {
    /// Starts an exchange that will send `payload`; the empty payload is a
    /// request too.
    pub fn new(payload: Vec<u8>) -> (r: RelayClient)
        ensures
            r@.wf(),
            r@ == (RelayState { payload: payload@, sent: 0, reply: Seq::empty(), phase: RelayPhase::Connecting }),
    {
        RelayClient { payload, sent: 0, reply: Vec::new(), phase: RelayPhase::Connecting }
    }

    pub fn phase(&self) -> (r: RelayPhase)
        ensures
            r == self@.phase,
    {
        self.phase
    }

    pub fn next_action(&self) -> (r: RelayAction)
        requires
            self@.wf(),
        ensures
            r == self@.next_action(),
    {
        match self.phase {
            RelayPhase::Connecting => RelayAction::Connect,
            RelayPhase::Writing => if self.sent < self.payload.len() {
                RelayAction::Write
            } else {
                RelayAction::CloseWrite
            },
            RelayPhase::Reading => RelayAction::Read,
            _ => RelayAction::Finish,
        }
    }

    /// The part of the payload that has not been written yet.
    pub fn unsent(&self) -> (r: &[u8])
        requires
            self@.wf(),
        ensures
            r@ == self@.payload.subrange(self@.sent as int, self@.payload.len() as int),
    {
        vstd::slice::slice_subrange(self.payload.as_slice(), self.sent, self.payload.len())
    }

    /// The connection is open.
    pub fn connected(&mut self)
        requires
            old(self)@.wf(),
            old(self)@.phase is Connecting,
        ensures
            final(self)@.wf(),
            final(self)@ == (RelayState { phase: RelayPhase::Writing, ..old(self)@ }),
    {
        self.phase = RelayPhase::Writing;
    }

    /// `n` more bytes of the payload were written. A write that accepts no
    /// byte fails the exchange.
    pub fn wrote(&mut self, n: usize)
        requires
            old(self)@.wf(),
            old(self)@.phase is Writing,
            n <= old(self)@.payload.len() - old(self)@.sent,
        ensures
            final(self)@.wf(),
            n == 0 ==> final(self)@ == (RelayState { phase: RelayPhase::Failed(BridgeError::IOError), ..old(self)@ }),
            n > 0 ==> final(self)@ == (RelayState { sent: (old(self)@.sent + n) as nat, ..old(self)@ }),
    {
        if n == 0 {
            self.phase = RelayPhase::Failed(BridgeError::IOError);
        } else {
            let len = self.payload.len();
            assert(self.sent + n <= len);
            self.sent = self.sent + n;
        }
    }

    /// The write half is closed; the reply comes next.
    pub fn write_closed(&mut self)
        requires
            old(self)@.wf(),
            old(self)@.phase is Writing,
            old(self)@.sent == old(self)@.payload.len(),
        ensures
            final(self)@.wf(),
            final(self)@ == (RelayState { phase: RelayPhase::Reading, ..old(self)@ }),
    {
        self.phase = RelayPhase::Reading;
    }

    /// A chunk of the reply was read; an empty chunk is the end of the reply.
    pub fn received(&mut self, chunk: &[u8])
        requires
            old(self)@.wf(),
            old(self)@.phase is Reading,
        ensures
            final(self)@.wf(),
            chunk@.len() == 0 ==> final(self)@ == (RelayState { phase: RelayPhase::Done, ..old(self)@ }),
            chunk@.len() > 0 ==> final(self)@ == (RelayState { reply: old(self)@.reply + chunk@, ..old(self)@ }),
    {
        if chunk.len() == 0 {
            self.phase = RelayPhase::Done;
        } else {
            let mut i: usize = 0;
            while i < chunk.len()
                invariant
                    i <= chunk@.len(),
                    self.reply@ == old(self)@.reply + chunk@.subrange(0, i as int),
                    self.payload@ == old(self)@.payload,
                    self.sent == old(self)@.sent,
                    self.phase == old(self)@.phase,
                decreases chunk@.len() - i,
            {
                self.reply.push(chunk[i]);
                i = i + 1;
            }
            assert(chunk@.subrange(0, chunk@.len() as int) =~= chunk@);
        }
    }

    /// The operation asked for failed with `kind`. A failed connect is
    /// classified; a failed read or write is an `IOError`.
    pub fn failed(&mut self, kind: IoKind)
        requires
            old(self)@.wf(),
        ensures
            final(self)@.wf(),
            old(self)@.phase is Connecting ==> final(self)@ == (RelayState {
                phase: RelayPhase::Failed(connect_failure_spec(kind)),
                ..old(self)@
            }),
            (old(self)@.phase is Writing || old(self)@.phase is Reading) ==> final(self)@ == (RelayState {
                phase: RelayPhase::Failed(BridgeError::IOError),
                ..old(self)@
            }),
            (old(self)@.phase is Done || old(self)@.phase is Failed) ==> final(self)@ == old(self)@,
    {
        match self.phase {
            RelayPhase::Connecting => {
                self.phase = RelayPhase::Failed(connect_failure(kind));
            },
            RelayPhase::Writing | RelayPhase::Reading => {
                self.phase = RelayPhase::Failed(BridgeError::IOError);
            },
            _ => {},
        }
    }

    /// The outcome of a finished exchange: the whole reply, or the failure.
    pub fn finish(self) -> (r: Result<Vec<u8>, BridgeError>)
        requires
            self@.wf(),
            self@.phase is Done || self@.phase is Failed,
        ensures
            match self@.outcome() {
                Ok(reply) => r is Ok && r.unwrap()@ == reply,
                Err(e) => r == Err::<Vec<u8>, BridgeError>(e),
            },
    {
        match self.phase {
            RelayPhase::Failed(e) => Err(e),
            _ => Ok(self.reply),
        }
    }
}

/// Against a peer that echoes what it receives, a finished exchange returns
/// exactly its payload, the empty payload included: by the time the reply has
/// ended, the whole payload has been written.
pub proof fn echo_returns_payload(s: RelayState)
    requires
        s.wf(),
        s.phase is Done,
        s.reply == s.written(),
    ensures
        s.outcome() == Ok::<Seq<u8>, BridgeError>(s.payload),
{
    assert(s.written() =~= s.payload);
}

/// A reply is read only after the whole payload was written.
pub proof fn reading_follows_writing(s: RelayState)
    requires
        s.wf(),
        s.phase is Reading || s.phase is Done,
    ensures
        s.written() == s.payload,
{
    assert(s.written() =~= s.payload);
}

} // verus!
