use hiisi_simulator::fault::{classify_fault, expected_status, FaultKind, FaultPolicy};
use hiisi_simulator::sim::{Event, IoAction, SimError, Simulation};

const FUZZ: &[u8] = b"FUZZ FUZZ FUZZ";

/// Drives a started simulation through `n` full cycles, answering every
/// request with the status its payload shape deserves, and returns the
/// payloads the client put on the wire.
fn run_cycles(sim: &mut Simulation, n: usize) -> Vec<Vec<u8>> {
    let a = sim.start();
    assert!(matches!(a, IoAction::StartConnect { sock: _ }));
    let mut r = sim.handle_event(Event::Connected);
    let mut payloads: Vec<Vec<u8>> = Vec::new();
    for _ in 0..n {
        let buf = match r.expect("run should continue") {
            IoAction::StartSend { sock: _, buf } => buf,
            other => panic!("expected a send, got {:?}", other),
        };
        payloads.push(buf.clone());
        let next = sim
            .handle_event(Event::Sent { n: buf.len() })
            .expect("send completion should be accepted");
        assert!(matches!(next, IoAction::StartRecv { sock: _ }));
        let code: u16 = if buf.is_empty() || buf.as_slice() == FUZZ {
            400
        } else {
            200
        };
        let resp = format!("HTTP/1.1 {} X\r\nContent-Length: 0\r\n\r\n", code).into_bytes();
        r = sim.handle_event(Event::Received { buf: resp });
    }
    payloads
}

/// A fixed seed reproduces the identical fault decisions and byte-identical
/// request buffers at every cycle index, across independent runs.
#[test]
fn determinism_two_runs_identical() {
    let mut sim1 = Simulation::new(12345, FaultPolicy::Corruption, 1);
    let mut sim2 = Simulation::new(12345, FaultPolicy::Corruption, 1);
    let first_run = run_cycles(&mut sim1, 40);
    let second_run = run_cycles(&mut sim2, 40);
    assert_eq!(first_run, second_run);
    // the fuzz class is drawn at roughly one cycle in ten, so forty cycles
    // nearly always show both shapes; this seed shows both
    assert!(first_run.iter().any(|b| b.as_slice() == FUZZ));
    assert!(first_run.iter().any(|b| b.as_slice() != FUZZ));
}

#[test]
fn determinism_presence_policy() {
    let mut sim1 = Simulation::new(98765, FaultPolicy::Presence, 1);
    let mut sim2 = Simulation::new(98765, FaultPolicy::Presence, 1);
    assert_eq!(run_cycles(&mut sim1, 40), run_cycles(&mut sim2, 40));
}

/// Normal cycles expect the success status; empty and fuzzed cycles expect
/// the client-error status.
#[test]
fn fault_status_mapping() {
    assert_eq!(expected_status(FaultKind::Normal), 200);
    assert_eq!(expected_status(FaultKind::Empty), 400);
    assert_eq!(expected_status(FaultKind::Fuzz), 400);
}

#[test]
fn classify_fault_by_policy() {
    assert_eq!(classify_fault(FaultPolicy::Presence, 9), FaultKind::Empty);
    assert_eq!(classify_fault(FaultPolicy::Corruption, 19), FaultKind::Fuzz);
    assert_eq!(classify_fault(FaultPolicy::Presence, 0), FaultKind::Normal);
    assert_eq!(classify_fault(FaultPolicy::Corruption, 8), FaultKind::Normal);
    assert_eq!(classify_fault(FaultPolicy::Corruption, u64::MAX), FaultKind::Normal);
}

/// Finds a seed whose first fault draw yields the wanted payload shape, and
/// returns the simulation right after its first send action, plus that
/// payload.
fn first_cycle_with(policy: FaultPolicy, want: fn(&[u8]) -> bool) -> (Simulation, Vec<u8>) {
    for seed in 0..200u64 {
        let mut sim = Simulation::new(seed, policy, 1);
        sim.start();
        let r = sim.handle_event(Event::Connected).expect("first cycle starts");
        let buf = match r {
            IoAction::StartSend { sock: _, buf } => buf,
            other => panic!("expected a send, got {:?}", other),
        };
        if want(&buf) {
            return (sim, buf);
        }
    }
    panic!("no seed in range drew the wanted fault class");
}

/// Scenario: a conformant cycle. The fault draw yields normal, the request
/// is the pipelined `SELECT 1` execute with rows requested, the server
/// answers 200, and the driver immediately starts the next cycle.
#[test]
fn scenario_conformant_cycle() {
    let (mut sim, buf) = first_cycle_with(FaultPolicy::Corruption, |b| {
        !b.is_empty() && b != FUZZ
    });
    let text = String::from_utf8(buf.clone()).unwrap();
    assert!(text.starts_with("POST /v2/pipeline HTTP/1.1\r\nHost: test.localhost\r\n"));
    assert!(text.contains("\"sql\":\"SELECT 1\""));
    assert!(text.contains("\"want_rows\":true"));
    let next = sim
        .handle_event(Event::Sent { n: buf.len() })
        .expect("send completes");
    assert!(matches!(next, IoAction::StartRecv { sock: _ }));
    let resp = b"HTTP/1.1 200 OK\r\nContent-Length: 2\r\n\r\nok".to_vec();
    let after = sim.handle_event(Event::Received { buf: resp });
    // the run does not terminate: the next request goes out at once
    match after {
        Ok(IoAction::StartSend { sock: _, buf: _ }) => {}
        other => panic!("expected the next cycle's send, got {:?}", other),
    }
}

/// Scenario: an empty-fault cycle. The client transmits a zero-length body
/// and a 400 answer satisfies the oracle.
#[test]
fn scenario_empty_fault_cycle() {
    let (mut sim, buf) = first_cycle_with(FaultPolicy::Presence, |b| b.is_empty());
    assert_eq!(buf.len(), 0);
    sim.handle_event(Event::Sent { n: 0 }).expect("send completes");
    let resp = b"HTTP/1.1 400 Bad Request\r\nContent-Length: 0\r\n\r\n".to_vec();
    let after = sim.handle_event(Event::Received { buf: resp });
    assert!(matches!(after, Ok(IoAction::StartSend { sock: _, buf: _ })));
}

/// Scenario: a corruption-fault cycle. The client transmits the literal
/// noise bytes with no valid framing and a 400 answer satisfies the oracle.
#[test]
fn scenario_corruption_fault_cycle() {
    let (mut sim, buf) = first_cycle_with(FaultPolicy::Corruption, |b| b == FUZZ);
    assert_eq!(buf.as_slice(), FUZZ);
    sim.handle_event(Event::Sent { n: buf.len() }).expect("send completes");
    let resp = b"HTTP/1.1 400 Bad Request\r\nContent-Length: 0\r\n\r\n".to_vec();
    let after = sim.handle_event(Event::Received { buf: resp });
    assert!(matches!(after, Ok(IoAction::StartSend { sock: _, buf: _ })));
}

/// Scenario: an oracle failure. A normal cycle answered with a non-200
/// status ends the run with the parsed status and the full response held
/// for the diagnostic dump.
#[test]
fn scenario_oracle_failure() {
    let (mut sim, buf) = first_cycle_with(FaultPolicy::Corruption, |b| {
        !b.is_empty() && b != FUZZ
    });
    sim.handle_event(Event::Sent { n: buf.len() }).expect("send completes");
    let resp = b"HTTP/1.1 500 Oops\r\nContent-Length: 6\r\n\r\nwhoops".to_vec();
    let after = sim.handle_event(Event::Received { buf: resp.clone() });
    match after {
        Err(SimError::OracleMismatch { expected, got, body_offset, response }) => {
            assert_eq!(expected, 200);
            assert_eq!(got, 500);
            assert_eq!(response, resp);
            assert_eq!(&response[body_offset..], b"whoops");
        }
        other => panic!("expected an oracle mismatch, got {:?}", other),
    }
}

/// An unparsable response is itself a fatal finding, not swallowed.
#[test]
fn malformed_response_is_fatal() {
    let (mut sim, buf) = first_cycle_with(FaultPolicy::Corruption, |b| !b.is_empty());
    sim.handle_event(Event::Sent { n: buf.len() }).expect("send completes");
    let resp = b"not an http response\r\n\r\n".to_vec();
    let after = sim.handle_event(Event::Received { buf: resp.clone() });
    match after {
        Err(SimError::MalformedResponse { response }) => assert_eq!(response, resp),
        other => panic!("expected a malformed-response error, got {:?}", other),
    }
}

/// An event with no matching registration is a protocol violation.
#[test]
fn event_without_registration() {
    let mut sim = Simulation::new(5, FaultPolicy::Corruption, 1);
    let r = sim.handle_event(Event::Sent { n: 0 });
    assert!(matches!(r, Err(SimError::NotRegistered)));
    // after the connect completion is consumed, a second one is a violation
    sim.start();
    sim.handle_event(Event::Connected).expect("first connect completion");
    let again = sim.handle_event(Event::Connected);
    assert!(matches!(again, Err(SimError::NotRegistered)));
}
