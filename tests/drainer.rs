use astrolabe::diagnostic::{Diagnostic, Stream};
use astrolabe::drainer::{backend_line, drain, drain_event, termination_line, OutputEvent};

fn texts(ds: &[Diagnostic]) -> Vec<(Stream, String)> {
    ds.iter().map(|d| (d.stream, d.text.clone())).collect()
}

#[test]
fn output_lines_forwarded_in_order_with_lossy_decoding() {
    let events = vec![
        OutputEvent::Stdout(b"listening".to_vec()),
        OutputEvent::Stderr(vec![b'b', b'a', 0xff, b'd']),
        OutputEvent::Stdout(b"ready".to_vec()),
    ];
    assert_eq!(
        texts(&drain(&events)),
        vec![
            (Stream::Normal, "[Backend] listening".to_string()),
            (Stream::Error, "[Backend] ba\u{FFFD}d".to_string()),
            (Stream::Normal, "[Backend] ready".to_string()),
        ]
    );
}

#[test]
fn terminated_zero_reports_code_and_stops_reading() {
    let events = vec![
        OutputEvent::Stdout(b"bye".to_vec()),
        OutputEvent::Terminated(Some(0)),
        OutputEvent::Stdout(b"never read".to_vec()),
        OutputEvent::Error("late".to_string()),
    ];
    let lines = drain(&events);
    assert_eq!(
        texts(&lines),
        vec![
            (Stream::Normal, "[Backend] bye".to_string()),
            (Stream::Normal, "[Backend] Terminated with code: Some(0)".to_string()),
        ]
    );
    assert!(lines[1].text.contains('0'));
}

#[test]
fn terminated_without_code() {
    assert_eq!(termination_line(None).text, "[Backend] Terminated with code: None");
}

#[test]
fn terminated_with_negative_and_extreme_codes() {
    assert_eq!(termination_line(Some(-15)).text, "[Backend] Terminated with code: Some(-15)");
    assert_eq!(termination_line(Some(127)).text, "[Backend] Terminated with code: Some(127)");
    assert_eq!(
        termination_line(Some(i32::MIN)).text,
        "[Backend] Terminated with code: Some(-2147483648)"
    );
    assert_eq!(
        termination_line(Some(i32::MAX)).text,
        "[Backend] Terminated with code: Some(2147483647)"
    );
}

#[test]
fn transport_error_goes_to_error_sink_and_draining_continues() {
    let events = vec![
        OutputEvent::Error("pipe broken".to_string()),
        OutputEvent::Other,
        OutputEvent::Stdout(b"still here".to_vec()),
    ];
    assert_eq!(
        texts(&drain(&events)),
        vec![
            (Stream::Error, "[Backend Error] pipe broken".to_string()),
            (Stream::Normal, "[Backend] still here".to_string()),
        ]
    );
}

#[test]
fn other_events_are_ignored() {
    let step = drain_event(&OutputEvent::Other);
    assert!(step.line.is_none());
    assert!(!step.finished);
}

#[test]
fn terminated_event_finishes_the_drainer() {
    let step = drain_event(&OutputEvent::Terminated(Some(3)));
    assert!(step.finished);
    assert_eq!(step.line.unwrap().text, "[Backend] Terminated with code: Some(3)");
}

#[test]
fn empty_channel_writes_nothing() {
    assert!(drain(&Vec::new()).is_empty());
}

#[test]
fn empty_output_line_keeps_only_the_tag() {
    let step = drain_event(&OutputEvent::Stdout(Vec::new()));
    assert_eq!(step.line.unwrap().text, "[Backend] ");
}

#[test]
fn backend_line_prefixes_text() {
    let d = backend_line(Stream::Error, "oops");
    assert_eq!(d.stream, Stream::Error);
    assert_eq!(d.text, "[Backend] oops");
}
