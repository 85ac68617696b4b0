use vsp_router::config::Route;
use vsp_router::error::Error;
use vsp_router::mux::{
    note_write_outcome, Multiplexer, MuxEvent, StepOutcome, WriteDisposition, WriteOutcome,
};
use vsp_router::routing::RoutingTable;

fn s(x: &str) -> String {
    x.to_string()
}

fn route(src: &str, dst: &str) -> Route {
    Route { src: s(src), dst: s(dst) }
}

/// Endpoints `A`, `B`, `C` with edges `A->C`, `B->C`, `C->A`, `C->B`, every
/// endpoint registered as both source and sink.
fn abc_mux() -> Multiplexer {
    let ids = vec![s("A"), s("B"), s("C")];
    let edges = vec![route("A", "C"), route("B", "C"), route("C", "A"), route("C", "B")];
    let Ok(table) = RoutingTable::build(ids.clone(), edges) else {
        panic!("expected a valid table");
    };
    Multiplexer::new(table, ids.clone(), ids)
}

fn frame_event(src: &str, data: &'static [u8]) -> MuxEvent {
    MuxEvent::Frame { source_id: s(src), frame: bytes::Bytes::from_static(data) }
}

#[test]
fn frame_from_a_reaches_only_c() {
    let mut m = abc_mux();
    match m.handle_event(frame_event("A", b"hello")) {
        StepOutcome::Deliver { writes } => {
            assert_eq!(writes.len(), 1);
            assert_eq!(writes[0].destination_id, "C");
            assert_eq!(&writes[0].frame[..], b"hello");
        }
        StepOutcome::Stop { .. } => panic!("expected a delivery"),
    }
    assert!(m.is_running());
}

#[test]
fn frame_from_c_reaches_a_and_b_in_order() {
    let mut m = abc_mux();
    match m.handle_event(frame_event("C", b"world")) {
        StepOutcome::Deliver { writes } => {
            assert_eq!(writes.len(), 2);
            assert_eq!(writes[0].destination_id, "A");
            assert_eq!(&writes[0].frame[..], b"world");
            assert_eq!(writes[1].destination_id, "B");
            assert_eq!(&writes[1].frame[..], b"world");
        }
        StepOutcome::Stop { .. } => panic!("expected a delivery"),
    }
}

#[test]
fn unrouted_source_discards_without_error() {
    let ids = vec![s("A"), s("B")];
    let Ok(table) = RoutingTable::build(ids.clone(), vec![route("A", "B")]) else {
        panic!("expected a valid table");
    };
    let mut m = Multiplexer::new(table, ids.clone(), ids);
    match m.handle_event(frame_event("B", b"ignored")) {
        StepOutcome::Deliver { writes } => assert!(writes.is_empty()),
        StepOutcome::Stop { .. } => panic!("a no-route read must not stop the loop"),
    }
    assert!(m.is_running());
}

#[test]
fn shutdown_stops_before_any_further_write() {
    let mut m = abc_mux();
    match m.handle_event(MuxEvent::Shutdown) {
        StepOutcome::Stop { result } => assert!(result.is_ok()),
        StepOutcome::Deliver { .. } => panic!("shutdown must stop the loop"),
    }
    assert!(!m.is_running());
    match m.handle_event(frame_event("A", b"late")) {
        StepOutcome::Stop { result } => assert!(result.is_ok()),
        StepOutcome::Deliver { .. } => panic!("no write may follow the shutdown signal"),
    }
}

#[test]
fn exhausted_sources_stop_gracefully() {
    let mut m = abc_mux();
    match m.handle_event(MuxEvent::SourcesClosed) {
        StepOutcome::Stop { result } => assert!(result.is_ok()),
        StepOutcome::Deliver { .. } => panic!("expected a graceful stop"),
    }
}

#[test]
fn read_failure_is_fatal() {
    let mut m = abc_mux();
    let cause = std::io::Error::new(std::io::ErrorKind::BrokenPipe, "gone");
    match m.handle_event(MuxEvent::ReadFailed { source_id: s("B"), cause }) {
        StepOutcome::Stop { result } => match result {
            Err(Error::Read { source_id, cause }) => {
                assert_eq!(source_id, "B");
                assert_eq!(cause.kind(), std::io::ErrorKind::BrokenPipe);
            }
            _ => panic!("expected a read error"),
        },
        StepOutcome::Deliver { .. } => panic!("a read failure must stop the loop"),
    }
    assert!(!m.is_running());
}

#[test]
fn missing_sink_is_a_routing_integrity_error() {
    let ids = vec![s("A"), s("B")];
    let Ok(table) = RoutingTable::build(ids.clone(), vec![route("A", "B")]) else {
        panic!("expected a valid table");
    };
    // `B` is routed to but never registered as a sink.
    let mut m = Multiplexer::new(table, ids, vec![s("A")]);
    match m.handle_event(frame_event("A", b"data")) {
        StepOutcome::Stop { result } => match result {
            Err(Error::RoutingIntegrity { destination_id }) => {
                assert_eq!(destination_id, "B")
            }
            _ => panic!("expected a routing-integrity error"),
        },
        StepOutcome::Deliver { .. } => panic!("an unregistered sink must be fatal"),
    }
}

#[test]
fn write_outcomes_are_classified() {
    match note_write_outcome(s("C"), WriteOutcome::Wrote) {
        WriteDisposition::Delivered => {}
        _ => panic!("a completed write is delivered"),
    }
    match note_write_outcome(s("C"), WriteOutcome::WouldBlock) {
        WriteDisposition::Discarded => {}
        _ => panic!("backpressure discards the frame"),
    }
    let cause = std::io::Error::new(std::io::ErrorKind::PermissionDenied, "no");
    match note_write_outcome(s("C"), WriteOutcome::Failed { cause }) {
        WriteDisposition::Reported { error } => match error {
            Error::Write { destination_id, cause } => {
                assert_eq!(destination_id, "C");
                assert_eq!(cause.kind(), std::io::ErrorKind::PermissionDenied);
            }
            _ => panic!("expected a write error"),
        },
        _ => panic!("a failed write is reported"),
    }
}

#[test]
fn one_failed_destination_leaves_the_others_delivered() {
    let mut m = abc_mux();
    let writes = match m.handle_event(frame_event("C", b"world")) {
        StepOutcome::Deliver { writes } => writes,
        StepOutcome::Stop { .. } => panic!("expected a delivery"),
    };
    assert_eq!(writes.len(), 2);
    // Simulate: the write to `A` fails, the write to `B` completes.
    let cause = std::io::Error::new(std::io::ErrorKind::BrokenPipe, "gone");
    let first = note_write_outcome(writes[0].destination_id.clone(), WriteOutcome::Failed {
        cause,
    });
    let second = note_write_outcome(writes[1].destination_id.clone(), WriteOutcome::Wrote);
    assert!(matches!(first, WriteDisposition::Reported { .. }));
    assert!(matches!(second, WriteDisposition::Delivered));
    // The loop is still running: the frame was still attempted everywhere.
    assert!(m.is_running());
    assert_eq!(&writes[1].frame[..], b"world");
}
