use mcp_bridge::executor::{ExecOutcome, ScriptExecutor};
use mcp_bridge::json::Json;
use std::collections::HashSet;

#[test]
fn ids_are_distinct_and_fresh() {
    let mut store: ScriptExecutor<u32> = ScriptExecutor::new();
    let mut seen = HashSet::new();
    for i in 0..200 {
        let id = store.begin(i);
        assert_eq!(id.len(), 32);
        assert!(seen.insert(id));
    }
    assert_eq!(store.len(), 200);
}

#[test]
fn unknown_resolve_is_a_no_op() {
    let mut store: ScriptExecutor<&str> = ScriptExecutor::new();
    let id = store.begin("slot");
    assert!(store.resolve("not-an-id").is_none());
    assert!(store.handle_result("not-an-id", true, None, None).is_none());
    assert!(store.contains(&id));
    assert_eq!(store.len(), 1);
}

#[test]
fn resolve_happens_once() {
    let mut store: ScriptExecutor<&str> = ScriptExecutor::new();
    let id = store.begin("slot");
    assert_eq!(store.resolve(&id), Some("slot"));
    assert_eq!(store.resolve(&id), None);
    assert!(!store.contains(&id));
}

#[test]
fn expired_id_is_untracked_and_late_report_ignored() {
    let mut store: ScriptExecutor<u8> = ScriptExecutor::default();
    let id = store.begin(7);
    assert!(store.expire(&id));
    assert!(!store.contains(&id));
    assert!(store.handle_result(&id, true, Some(Json::UInt(1)), None).is_none());
    assert!(!store.expire(&id));
}

#[test]
fn timeout_then_late_report_with_a_real_channel() {
    let rt = tokio::runtime::Builder::new_current_thread().enable_time().build().unwrap();
    let mut store = ScriptExecutor::new();
    let (tx, rx) = tokio::sync::oneshot::channel::<ExecOutcome>();
    let id = store.begin(tx);
    let start = std::time::Instant::now();
    let waited = rt.block_on(async { tokio::time::timeout(std::time::Duration::from_millis(50), rx).await });
    assert!(waited.is_err());
    assert!(start.elapsed() < std::time::Duration::from_millis(1000));
    store.expire(&id);
    assert!(!store.contains(&id));
    assert!(store.handle_result(&id, true, None, None).is_none());
}

#[test]
fn report_outcomes() {
    let mut store: ScriptExecutor<u8> = ScriptExecutor::new();
    let a = store.begin(1);
    let b = store.begin(2);
    let c = store.begin(3);
    match store.handle_result(&a, true, Some(Json::UInt(5)), None) {
        Some((1, ExecOutcome::Success(Some(Json::UInt(5))))) => {}
        _ => panic!("unexpected outcome"),
    }
    match store.handle_result(&b, false, None, Some("boom".to_string())) {
        Some((2, ExecOutcome::Failure(m))) => assert_eq!(m, "boom"),
        _ => panic!("unexpected outcome"),
    }
    match store.handle_result(&c, false, None, None) {
        Some((3, ExecOutcome::Failure(m))) => assert_eq!(m, "Unknown error"),
        _ => panic!("unexpected outcome"),
    }
    assert_eq!(store.len(), 0);
}
