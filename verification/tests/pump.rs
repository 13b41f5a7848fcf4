use sidecar_supervisor::pump::{pump_event, PumpOutput, StdioEvent};

#[test]
fn stdout_bytes_go_to_host_stdout() {
    let event = StdioEvent::Stdout(b"server listening on 9090".to_vec());
    assert_eq!(
        pump_event(&event),
        PumpOutput::PrintOut("server listening on 9090".to_string())
    );
}

#[test]
fn stderr_bytes_go_to_host_stderr() {
    let event = StdioEvent::Stderr(b"warning: low disk".to_vec());
    assert_eq!(pump_event(&event), PumpOutput::PrintErr("warning: low disk".to_string()));
}

#[test]
fn other_events_are_skipped() {
    assert_eq!(pump_event(&StdioEvent::Other), PumpOutput::Skip);
}

#[test]
fn invalid_utf8_is_replaced_not_dropped() {
    // The decoding is lossy: an invalid byte becomes U+FFFD, so the output
    // is not the raw input.
    let event = StdioEvent::Stdout(vec![0x68, 0x69, 0xff]);
    match pump_event(&event) {
        PumpOutput::PrintOut(s) => assert_eq!(s, "hi\u{fffd}"),
        other => panic!("expected stdout routing, got {:?}", other),
    }
}
