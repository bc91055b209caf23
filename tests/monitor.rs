use mcp_bridge::monitor::{current_timestamp, IPCEvent, IPCMonitor};

fn event(command: &str) -> IPCEvent {
    IPCEvent {
        timestamp: 1234567890,
        command: command.to_string(),
        args: "{}".to_string(),
        result: None,
        error: None,
        duration_us: Some(5200),
    }
}

#[test]
fn events_while_disabled_are_dropped() {
    let mut m = IPCMonitor::new();
    m.start();
    m.add_event(event("e1"));
    m.stop();
    m.add_event(event("e2"));
    let events = m.get_events();
    assert_eq!(events.len(), 1);
    assert_eq!(events[0].command, "e1");
    assert!(!m.is_enabled());
}

#[test]
fn restart_clears_history_without_stop() {
    let mut m = IPCMonitor::new();
    m.start();
    m.add_event(event("a"));
    m.add_event(event("b"));
    m.start();
    assert!(m.get_events().is_empty());
    assert!(m.is_enabled());
}

#[test]
fn new_monitor_is_disabled_and_empty() {
    let mut m = IPCMonitor::new();
    assert!(!m.is_enabled());
    m.add_event(event("x"));
    assert!(m.get_events().is_empty());
}

#[test]
fn log_is_kept_across_stop_in_order() {
    let mut m = IPCMonitor::new();
    m.start();
    m.add_event(event("a"));
    m.add_event(event("b"));
    m.stop();
    let names: Vec<String> = m.get_events().into_iter().map(|e| e.command).collect();
    assert_eq!(names, vec!["a".to_string(), "b".to_string()]);
}

#[test]
fn timestamp_is_after_2020() {
    assert!(current_timestamp() > 1_577_836_800_000);
}
