use astrolabe::diagnostic::{Diagnostic, Stream};
use astrolabe::supervisor::{stop_report, LaunchError, Supervisor};

fn texts(ds: &[Diagnostic]) -> Vec<(Stream, String)> {
    ds.iter().map(|d| (d.stream, d.text.clone())).collect()
}

#[test]
fn new_supervisor_is_empty() {
    let s: Supervisor<u32> = Supervisor::new();
    assert!(!s.is_running());
}

#[test]
fn start_then_stop_leaves_slot_empty() {
    let mut s: Supervisor<u32> = Supervisor::new();
    assert!(!s.is_running());
    let lines = s.start(Ok(41));
    assert_eq!(
        texts(&lines),
        vec![(Stream::Normal, "[Astrolabe] Backend sidecar started".to_string())]
    );
    assert!(s.is_running());
    assert_eq!(s.stop(), Some(41));
    assert!(!s.is_running());
}

#[test]
fn stop_on_empty_slot_is_silent_noop() {
    let mut s: Supervisor<u32> = Supervisor::new();
    assert_eq!(s.stop(), None);
    assert_eq!(s.stop(), None);
    assert!(!s.is_running());
}

#[test]
fn failed_resolution_leaves_slot_empty_with_one_error() {
    let mut s: Supervisor<u32> = Supervisor::new();
    let lines = s.start(Err(LaunchError::Resolution("not packaged".to_string())));
    assert!(!s.is_running());
    assert_eq!(
        texts(&lines),
        vec![(Stream::Error, "[Astrolabe] Failed to find sidecar: not packaged".to_string())]
    );
}

#[test]
fn spawn_permission_denied_then_silent_stop() {
    let mut s: Supervisor<u32> = Supervisor::new();
    let lines = s.start(Err(LaunchError::Spawn("permission denied".to_string())));
    assert!(!s.is_running());
    assert_eq!(lines.len(), 1);
    assert_eq!(lines[0].stream, Stream::Error);
    assert!(lines[0].text.contains("permission denied"));
    assert_eq!(lines[0].text, "[Astrolabe] Failed to spawn sidecar: permission denied");
    assert_eq!(s.stop(), None);
}

#[test]
fn start_and_stop_in_either_order_leave_consistent_slot() {
    let mut a: Supervisor<u32> = Supervisor::new();
    a.start(Ok(7));
    assert_eq!(a.stop(), Some(7));
    assert!(!a.is_running());

    let mut b: Supervisor<u32> = Supervisor::new();
    assert_eq!(b.stop(), None);
    b.start(Ok(7));
    assert!(b.is_running());
    assert_eq!(b.stop(), Some(7));
    assert_eq!(b.stop(), None);
}

#[test]
fn later_launch_replaces_earlier_and_failure_keeps_it() {
    let mut s: Supervisor<u32> = Supervisor::new();
    s.start(Ok(1));
    s.start(Ok(2));
    s.start(Err(LaunchError::Spawn("busy".to_string())));
    assert_eq!(s.stop(), Some(2));
}

#[test]
fn stop_report_after_successful_kill() {
    assert_eq!(
        texts(&stop_report(Ok(()))),
        vec![(Stream::Normal, "[Astrolabe] Backend sidecar stopped".to_string())]
    );
}

#[test]
fn stop_report_after_failed_kill() {
    assert_eq!(
        texts(&stop_report(Err("no such process".to_string()))),
        vec![
            (Stream::Error, "[Astrolabe] Failed to stop sidecar: no such process".to_string()),
            (Stream::Normal, "[Astrolabe] Backend sidecar stopped".to_string()),
        ]
    );
}
