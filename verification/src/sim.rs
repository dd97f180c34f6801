//! Simulation driver.
//!
//! Wires the fault source, the request builder, the scheduler and the oracle
//! into an unbounded request cycle: build a request, let the injector pick
//! the cycle's payload, send it, await the response, validate it, and begin
//! the next cycle.  The driver never touches a socket itself: it registers
//! interest in the scheduler's table and hands the surrounding binary one
//! action at a time; the binary feeds each completion back in as an event.

use vstd::prelude::*;
use vstd::string::StrSliceExecFns;
use vstd::utf8::encode_utf8;
use crate::fault::FaultPolicy;
use crate::fault::FaultKind;
use crate::fault::fault_at;
use crate::fault::spec_expected_status;
use crate::fault::classify_fault;
use crate::fault::expected_status;
use crate::rng::rng_from_seed;
use crate::rng::rng_next_u64;
use crate::rng::rng_seed_of;
use crate::rng::rng_pos_of;
use crate::request::build_request;
use crate::request::spec_request_bytes;
use crate::oracle::validate_response;
use crate::oracle::OracleOutcome;
use crate::oracle::http_response_of;
use crate::sched::Scheduler;
use crate::sched::OpKind;
use crate::sched::Continuation;
use crate::sched::PendingOp;

verus! {

/// The noise a corrupted cycle transmits: literal bytes with no valid
/// framing at all.
pub open spec fn fuzz_chars() -> Seq<char> {
    "FUZZ FUZZ FUZZ"@
}

pub open spec fn spec_fuzz_bytes() -> Seq<u8> {
    encode_utf8(fuzz_chars())
}

pub fn fuzz_payload() -> (v: Vec<u8>)
    ensures
        v@ == spec_fuzz_bytes(),
{
    let s = "FUZZ FUZZ FUZZ";
    s.as_bytes_vec()
}

/// The bytes a cycle of the given fault class puts on the wire.
pub open spec fn spec_payload(k: FaultKind) -> Seq<u8> {
    match k {
        FaultKind::Normal => spec_request_bytes(),
        FaultKind::Empty => Seq::<u8>::empty(),
        FaultKind::Fuzz => spec_fuzz_bytes(),
    }
}

/// The bytes cycle `i` of a run puts on the wire: a pure function of the
/// policy, the seed and the cycle index.
pub open spec fn payload_at(policy: FaultPolicy, seed: u64, i: nat) -> Seq<u8> {
    spec_payload(fault_at(policy, seed, i))
}

/// The sequence of transmitted buffers over the first `n` cycles of a run.
pub open spec fn payload_trace(policy: FaultPolicy, seed: u64, n: nat) -> Seq<Seq<u8>> {
    Seq::new(n, |i: int| payload_at(policy, seed, i as nat))
}

/// Law: two runs under the same policy and the same seed issue byte-identical
/// request buffers at each cycle index: the trace of transmitted bytes is a
/// function of the policy, the seed and the cycle count alone.
pub proof fn lemma_payload_determinism(policy: FaultPolicy, seed1: u64, seed2: u64, n: nat)
    requires
        seed1 == seed2,
    ensures
        payload_trace(policy, seed1, n) == payload_trace(policy, seed2, n),
{
}

/// A completion the surrounding binary observed on the simulation's socket.
pub enum Event {
    /// The non-blocking connect became established.
    Connected,
    /// A submitted buffer was fully written.
    Sent { n: usize },
    /// Inbound bytes arrived, delivered once, with no reassembly.
    Received { buf: Vec<u8> },
}

/// The next socket operation the surrounding binary must start.
#[derive(PartialEq, Eq, Debug)]
pub enum IoAction {
    StartConnect { sock: u64 },
    StartSend { sock: u64, buf: Vec<u8> },
    StartRecv { sock: u64 },
}

/// A condition that ends the run.  Every one of these is fatal by design:
/// the simulator is an oracle, and masking a mismatch would defeat it.
#[derive(PartialEq, Eq, Debug)]
pub enum SimError {
    /// An event arrived on a socket and kind with no registration: a
    /// protocol violation by the surrounding binary.
    NotRegistered,
    /// The response parsed but carried the wrong status: the defect signal
    /// this tool exists to produce.  Carries the full response for the
    /// diagnostic dump.
    OracleMismatch { expected: u16, got: u16, body_offset: usize, response: Vec<u8> },
    /// The response was not parsable as an HTTP response: itself a bug of
    /// the server under test.
    MalformedResponse { response: Vec<u8> },
}

pub open spec fn spec_send_op(sock: u64, k: FaultKind) -> PendingOp {
    PendingOp { sock, kind: OpKind::Send, cont: (Continuation::ClientSent { fault: k }) }
}

pub open spec fn spec_recv_op(sock: u64, k: FaultKind) -> PendingOp {
    PendingOp { sock, kind: OpKind::Recv, cont: (Continuation::ClientRecv { fault: k }) }
}

/// The deterministic client/server simulation: the seeded fault source, the
/// active policy, the pending-operation table, and the client socket's
/// identifier.
pub struct Simulation {
    pub rng: rand_chacha::ChaCha8Rng,
    pub policy: FaultPolicy,
    pub sched: Scheduler,
    pub sock: u64,
}

impl Simulation {
    /// The seed this run was created from.
    pub open spec fn seed(self) -> u64 {
        rng_seed_of(self.rng)
    }

    /// How many fault decisions have been drawn: one per cycle begun.
    pub open spec fn cycles(self) -> nat {
        rng_pos_of(self.rng)
    }

    /// A registration's continuation agrees with its operation kind.
    pub open spec fn kind_cont_ok(op: PendingOp) -> bool {
        match op.cont {
            Continuation::ClientConnected => op.kind is Connect,
            Continuation::ClientSent { .. } => op.kind is Send,
            Continuation::ClientRecv { .. } => op.kind is Recv,
        }
    }

    /// The driver is single-flow: at most one operation is in flight, it
    /// belongs to the client socket, and its continuation matches its kind.
    /// The table itself never holds two operations of one kind per socket.
    pub open spec fn wf(self) -> bool {
        &&& self.sched.wf()
        &&& self.sched.ops().len() <= 1
        &&& forall|i: int|
            0 <= i < self.sched.ops().len() ==> (#[trigger] self.sched.ops()[i]).sock == self.sock
                && Self::kind_cont_ok(self.sched.ops()[i])
    }

    /// A request cycle began in `post`, continuing `pre`: exactly one fault
    /// word was drawn, the payload matches the decided class, and the send
    /// is the one registered operation.
    pub open spec fn spec_starts_cycle(pre: Simulation, post: Simulation, a: IoAction) -> bool {
        let k = fault_at(pre.policy, rng_seed_of(pre.rng), rng_pos_of(pre.rng));
        &&& rng_pos_of(post.rng) == rng_pos_of(pre.rng) + 1
        &&& a matches IoAction::StartSend { sock: s2, buf: b2 } && s2 == pre.sock && b2@
            == spec_payload(k)
        &&& post.sched.ops() =~= seq![spec_send_op(pre.sock, k)]
    }

    /// What the oracle made of one delivered response in a cycle of class
    /// `fault`: on the expected status the next cycle begins; on any other
    /// status, or an unparsable response, the run ends with the diagnostic.
    pub open spec fn spec_validated(
        pre: Simulation,
        post: Simulation,
        fault: FaultKind,
        rbuf: Seq<u8>,
        r: Result<IoAction, SimError>,
    ) -> bool {
        let expected = spec_expected_status(fault);
        match http_response_of(rbuf) {
            Some(p) => if p.0 == expected {
                r matches Ok(a) && Self::spec_starts_cycle(pre, post, a)
            } else {
                &&& r matches Err(e) && e matches SimError::OracleMismatch {
                    expected: e1,
                    got,
                    body_offset,
                    response,
                } && e1 == expected && got == p.0 && body_offset as nat == p.1 && response@ == rbuf
                &&& post.sched.ops().len() == 0
                &&& post.rng == pre.rng
            },
            None => {
                &&& r matches Err(e) && e matches SimError::MalformedResponse { response }
                    && response@ == rbuf
                &&& post.sched.ops().len() == 0
                &&& post.rng == pre.rng
            },
        }
    }

    /// Creates a run from its seed and active policy.  The same seed and
    /// policy reproduce the identical sequence of fault decisions.
    pub fn new(seed: u64, policy: FaultPolicy, sock: u64) -> (s: Simulation)
        ensures
            s.wf(),
            s.seed() == seed,
            s.cycles() == 0,
            s.policy == policy,
            s.sock == sock,
            s.sched.ops().len() == 0,
    {
        Simulation { rng: rng_from_seed(seed), policy, sched: Scheduler::new(), sock }
    }

    /// Registers the initial non-blocking connect of the client socket.
    pub fn start(&mut self) -> (a: IoAction)
        requires
            old(self).wf(),
            old(self).sched.ops().len() == 0,
        ensures
            final(self).wf(),
            final(self).rng == old(self).rng,
            final(self).policy == old(self).policy,
            final(self).sock == old(self).sock,
            final(self).sched.ops() =~= seq![
                (PendingOp {
                    sock: old(self).sock,
                    kind: OpKind::Connect,
                    cont: Continuation::ClientConnected,
                }),
            ],
            a == (IoAction::StartConnect { sock: old(self).sock }),
    {
        self.sched.register(self.sock, OpKind::Connect, Continuation::ClientConnected);
        IoAction::StartConnect { sock: self.sock }
    }

    /// Draws the cycle's fault decision: exactly one word from the seeded
    /// source per cycle, so runs with one seed draw faults at the same
    /// cycle indices whatever the timing of their readiness events.
    pub fn gen_perform_client_req_fault(&mut self) -> (k: FaultKind)
        ensures
            k == fault_at(old(self).policy, old(self).seed(), old(self).cycles()),
            final(self).seed() == old(self).seed(),
            final(self).cycles() == old(self).cycles() + 1,
            final(self).policy == old(self).policy,
            final(self).sock == old(self).sock,
            final(self).sched == old(self).sched,
    {
        let w = rng_next_u64(&mut self.rng);
        classify_fault(self.policy, w)
    }

    /// Routes the built request through the injector: the decided class
    /// picks the payload actually submitted, and the registered
    /// continuation carries the class forward to the oracle.
    pub fn send_client_msg(&mut self, buf: Vec<u8>) -> (a: IoAction)
        requires
            old(self).wf(),
            old(self).sched.ops().len() == 0,
            buf@ == spec_request_bytes(),
        ensures
            final(self).wf(),
            final(self).seed() == old(self).seed(),
            final(self).policy == old(self).policy,
            final(self).sock == old(self).sock,
            Self::spec_starts_cycle(*old(self), *final(self), a),
    {
        let k = self.gen_perform_client_req_fault();
        let payload: Vec<u8> = match k {
            FaultKind::Normal => buf,
            FaultKind::Empty => Vec::new(),
            FaultKind::Fuzz => fuzz_payload(),
        };
        self.sched.register(self.sock, OpKind::Send, Continuation::ClientSent { fault: k });
        IoAction::StartSend { sock: self.sock, buf: payload }
    }

    /// Builds the conformant request for this cycle and hands it to the
    /// injector.  Every cycle builds byte-identical request bytes.
    pub fn perform_client_req(&mut self) -> (a: IoAction)
        requires
            old(self).wf(),
            old(self).sched.ops().len() == 0,
        ensures
            final(self).wf(),
            final(self).seed() == old(self).seed(),
            final(self).policy == old(self).policy,
            final(self).sock == old(self).sock,
            Self::spec_starts_cycle(*old(self), *final(self), a),
    {
        let req = build_request();
        self.send_client_msg(req)
    }

    /// The client connection became established: begin the first cycle.
    pub fn on_client_connect(&mut self) -> (a: IoAction)
        requires
            old(self).wf(),
            old(self).sched.ops().len() == 0,
        ensures
            final(self).wf(),
            final(self).seed() == old(self).seed(),
            final(self).policy == old(self).policy,
            final(self).sock == old(self).sock,
            Self::spec_starts_cycle(*old(self), *final(self), a),
    {
        self.perform_client_req()
    }

    /// A request of class `fault` was fully written: register interest in
    /// the response, carrying the class to the oracle.
    pub fn on_client_send(&mut self, fault: FaultKind) -> (a: IoAction)
        requires
            old(self).wf(),
            old(self).sched.ops().len() == 0,
        ensures
            final(self).wf(),
            final(self).rng == old(self).rng,
            final(self).policy == old(self).policy,
            final(self).sock == old(self).sock,
            final(self).sched.ops() =~= seq![spec_recv_op(old(self).sock, fault)],
            a == (IoAction::StartRecv { sock: old(self).sock }),
    {
        self.sched.register(self.sock, OpKind::Recv, Continuation::ClientRecv { fault });
        IoAction::StartRecv { sock: self.sock }
    }

    /// Response bytes arrived for a cycle of class `fault`: the oracle
    /// parses them and compares the status against the class's expectation.
    /// A pass starts the next cycle; anything else ends the run with the
    /// diagnostic.
    pub fn on_client_recv(&mut self, fault: FaultKind, buf: Vec<u8>) -> (r: Result<
        IoAction,
        SimError,
    >)
        requires
            old(self).wf(),
            old(self).sched.ops().len() == 0,
        ensures
            final(self).wf(),
            final(self).seed() == old(self).seed(),
            final(self).policy == old(self).policy,
            final(self).sock == old(self).sock,
            Self::spec_validated(*old(self), *final(self), fault, buf@, r),
    {
        let expected = expected_status(fault);
        match validate_response(expected, buf.as_slice()) {
            OracleOutcome::Pass { body_offset: _ } => Ok(self.perform_client_req()),
            OracleOutcome::Mismatch { got, body_offset } => Err(
                SimError::OracleMismatch { expected, got, body_offset, response: buf },
            ),
            OracleOutcome::Malformed => Err(SimError::MalformedResponse { response: buf }),
        }
    }

    /// The operation kind an event reports completion of.
    pub open spec fn spec_event_kind(ev: Event) -> OpKind {
        match ev {
            Event::Connected => OpKind::Connect,
            Event::Sent { .. } => OpKind::Send,
            Event::Received { .. } => OpKind::Recv,
        }
    }

    /// Advances the simulation by one completed operation: the matching
    /// registration is taken out of the table and its continuation runs,
    /// registering the follow-up operation that is handed back as the next
    /// action.  An event with no matching registration is a protocol
    /// violation and ends the run.
    pub fn handle_event(&mut self, ev: Event) -> (r: Result<IoAction, SimError>)
        requires
            old(self).wf(),
        ensures
            final(self).wf(),
            final(self).seed() == old(self).seed(),
            final(self).policy == old(self).policy,
            final(self).sock == old(self).sock,
            !old(self).sched.spec_has_pending(old(self).sock, Self::spec_event_kind(ev)) ==> r
                == Err::<IoAction, SimError>(SimError::NotRegistered) && *final(self) == *old(
                self,
            ),
            old(self).sched.spec_has_pending(old(self).sock, Self::spec_event_kind(ev))
                ==> match old(self).sched.ops()[0].cont {
                Continuation::ClientConnected => r matches Ok(a) && Self::spec_starts_cycle(
                    *old(self),
                    *final(self),
                    a,
                ),
                Continuation::ClientSent { fault } => {
                    &&& r matches Ok(a) && a == (IoAction::StartRecv { sock: old(self).sock })
                    &&& final(self).sched.ops() =~= seq![spec_recv_op(old(self).sock, fault)]
                    &&& final(self).rng == old(self).rng
                },
                Continuation::ClientRecv { fault } => ev matches Event::Received { buf }
                    && Self::spec_validated(*old(self), *final(self), fault, buf@, r),
            },
    {
        let kind = match &ev {
            Event::Connected => OpKind::Connect,
            Event::Sent { .. } => OpKind::Send,
            Event::Received { .. } => OpKind::Recv,
        };
        match self.sched.complete(self.sock, kind) {
            None => Err(SimError::NotRegistered),
            Some(cont) => match (cont, ev) {
                (Continuation::ClientConnected, Event::Connected) => Ok(self.on_client_connect()),
                (Continuation::ClientSent { fault }, Event::Sent { n: _ }) => Ok(
                    self.on_client_send(fault),
                ),
                (Continuation::ClientRecv { fault }, Event::Received { buf }) => self
                    .on_client_recv(fault, buf),
                _ => {
                    proof {
                        assert(false);
                    }
                    Err(SimError::NotRegistered)
                },
            },
        }
    }
}

} // verus!
