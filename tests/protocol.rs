use mcp_bridge::dispatch::{
    clear_response, dispatch, dom_failure, emit_response, error_response, remove_response, script_response,
    value_response, windows_response, DomOp, HostCall, Payload, ScriptRun, Step,
};
use mcp_bridge::json::Json;
use mcp_bridge::monitor::{IPCEvent, IPCMonitor};
use mcp_bridge::protocol::{decode_request, Command};
use mcp_bridge::script_registry::{ScriptRegistry, ScriptType};
use mcp_bridge::windows::{resolve_window_with_context, WindowContext, WindowInfo};

fn s(v: &str) -> Json {
    Json::Str(v.to_string())
}

fn obj(members: Vec<(&str, Json)>) -> Json {
    Json::Object(members.into_iter().map(|(k, v)| (k.to_string(), v)).collect())
}

fn reply(step: Step) -> mcp_bridge::dispatch::Response {
    match step {
        Step::Reply(r) => r,
        Step::Host(_) => panic!("expected a reply"),
    }
}

#[test]
fn list_windows_is_correlated_by_id() {
    let req = decode_request(obj(vec![("id", s("1")), ("command", s("list_windows"))]));
    assert_eq!(req.id, "1");
    assert!(matches!(req.command, Ok(Command::ListWindows)));
    let mut reg = ScriptRegistry::new();
    let mut mon = IPCMonitor::new();
    assert!(matches!(dispatch(req, &mut reg, &mut mon), Step::Host(HostCall::ListWindows)));
    let r = windows_response("1".to_string(), vec![]);
    assert_eq!(r.id, "1");
    assert!(r.success);
}

#[test]
fn missing_id_and_command_defaults() {
    let req = decode_request(obj(vec![]));
    assert_eq!(req.id, "");
    assert_eq!(req.command.err().unwrap(), "Unknown command: unknown");
}

#[test]
fn unknown_command_is_answered_with_error() {
    let req = decode_request(obj(vec![("id", s("7")), ("command", s("fly"))]));
    let mut reg = ScriptRegistry::new();
    let mut mon = IPCMonitor::new();
    let r = reply(dispatch(req, &mut reg, &mut mon));
    assert_eq!(r.id, "7");
    assert!(!r.success);
    assert_eq!(r.error.as_deref(), Some("Unknown command: fly"));
}

#[test]
fn invoke_errors() {
    let no_args = decode_request(obj(vec![("command", s("invoke_tauri"))]));
    assert_eq!(no_args.command.err().unwrap(), "Missing args for invoke_tauri");
    let no_cmd = decode_request(obj(vec![("command", s("invoke_tauri")), ("args", obj(vec![]))]));
    assert_eq!(no_cmd.command.err().unwrap(), "Missing command in args");
    let other = decode_request(obj(vec![
        ("command", s("invoke_tauri")),
        ("args", obj(vec![("command", s("plugin:x|y"))])),
    ]));
    assert_eq!(other.command.err().unwrap(), "Unsupported Tauri command: plugin:x|y");
    let no_event = decode_request(obj(vec![
        ("command", s("invoke_tauri")),
        ("args", obj(vec![("command", s("plugin:mcp-bridge|emit_event")), ("args", obj(vec![]))])),
    ]));
    assert_eq!(no_event.command.err().unwrap(), "Missing eventName in args");
}

#[test]
fn emit_event_carries_payload() {
    let req = decode_request(obj(vec![
        ("command", s("invoke_tauri")),
        (
            "args",
            obj(vec![
                ("command", s("plugin:mcp-bridge|emit_event")),
                ("args", obj(vec![("eventName", s("ping")), ("payload", Json::UInt(3))])),
            ]),
        ),
    ]));
    match req.command {
        Ok(Command::EmitEvent { event_name, payload: Json::UInt(3) }) => assert_eq!(event_name, "ping"),
        _ => panic!("unexpected decoding"),
    }
    let r = emit_response("9".to_string(), "ping", Ok(()));
    assert!(matches!(r.data, Some(Payload::Text(ref t)) if t == "Event 'ping' emitted successfully"));
    let r = emit_response("9".to_string(), "ping", Err("closed".to_string()));
    assert_eq!(r.error.as_deref(), Some("Failed to emit event: closed"));
}

#[test]
fn window_label_of_invoke_is_read_from_nested_args() {
    let req = decode_request(obj(vec![
        ("command", s("invoke_tauri")),
        (
            "args",
            obj(vec![
                ("command", s("plugin:mcp-bridge|get_window_info")),
                ("args", obj(vec![("windowLabel", s("second"))])),
            ]),
        ),
    ]));
    match req.command {
        Ok(Command::GetWindowInfo { window_label }) => assert_eq!(window_label.as_deref(), Some("second")),
        _ => panic!("unexpected decoding"),
    }
}

#[test]
fn monitor_commands_through_dispatch() {
    let mut reg = ScriptRegistry::new();
    let mut mon = IPCMonitor::new();
    let start = decode_request(obj(vec![
        ("id", s("a")),
        ("command", s("invoke_tauri")),
        ("args", obj(vec![("command", s("plugin:mcp-bridge|start_ipc_monitor"))])),
    ]));
    let r = reply(dispatch(start, &mut reg, &mut mon));
    assert!(matches!(r.data, Some(Payload::Text(ref t)) if t == "IPC monitoring started"));
    assert!(mon.is_enabled());
    mon.add_event(IPCEvent {
        timestamp: 1,
        command: "greet".to_string(),
        args: "{}".to_string(),
        result: None,
        error: None,
        duration_us: None,
    });
    let get = decode_request(obj(vec![
        ("id", s("b")),
        ("command", s("invoke_tauri")),
        ("args", obj(vec![("command", s("plugin:mcp-bridge|get_ipc_events"))])),
    ]));
    match reply(dispatch(get, &mut reg, &mut mon)).data {
        Some(Payload::Events(es)) => assert_eq!(es.len(), 1),
        _ => panic!("expected events"),
    }
    let stop = decode_request(obj(vec![
        ("command", s("invoke_tauri")),
        ("args", obj(vec![("command", s("plugin:mcp-bridge|stop_ipc_monitor"))])),
    ]));
    let r = reply(dispatch(stop, &mut reg, &mut mon));
    assert!(matches!(r.data, Some(Payload::Text(ref t)) if t == "IPC monitoring stopped"));
    assert!(!mon.is_enabled());
}

#[test]
fn script_registry_commands_through_dispatch() {
    let mut reg = ScriptRegistry::new();
    let mut mon = IPCMonitor::new();
    let register = decode_request(obj(vec![
        ("id", s("r")),
        ("command", s("register_script")),
        ("args", obj(vec![("id", s("s1")), ("type", s("url")), ("content", s("https://x/a.js"))])),
    ]));
    match dispatch(register, &mut reg, &mut mon) {
        Step::Host(HostCall::InjectScript { entry, window_label }) => {
            assert_eq!(entry.id, "s1");
            assert_eq!(entry.script_type, ScriptType::Url);
            assert!(window_label.is_none());
        }
        _ => panic!("expected an injection"),
    }
    assert_eq!(reg.len(), 1);
    let missing = decode_request(obj(vec![("command", s("register_script")), ("args", obj(vec![("id", s("s1"))]))]));
    assert_eq!(missing.command.err().unwrap(), "Missing required args: id, type, content");
    let get = decode_request(obj(vec![("command", s("get_scripts"))]));
    match reply(dispatch(get, &mut reg, &mut mon)).data {
        Some(Payload::Scripts(es)) => assert_eq!(es[0].content, "https://x/a.js"),
        _ => panic!("expected scripts"),
    }
    let remove = decode_request(obj(vec![("command", s("remove_script")), ("args", obj(vec![("id", s("s1"))]))]));
    assert!(matches!(dispatch(remove, &mut reg, &mut mon), Step::Host(HostCall::RemoveScript { removed: true, .. })));
    let again = decode_request(obj(vec![("command", s("remove_script")), ("args", obj(vec![("id", s("s1"))]))]));
    assert!(matches!(dispatch(again, &mut reg, &mut mon), Step::Host(HostCall::RemoveScript { removed: false, .. })));
    let clear = decode_request(obj(vec![("command", s("clear_scripts"))]));
    assert!(matches!(dispatch(clear, &mut reg, &mut mon), Step::Host(HostCall::ClearScripts { count: 0, .. })));
}

#[test]
fn capture_arguments() {
    let req = decode_request(obj(vec![
        ("command", s("capture_native_screenshot")),
        ("args", obj(vec![("format", s("jpeg")), ("quality", Json::UInt(300)), ("windowLabel", s("w"))])),
    ]));
    match req.command {
        Ok(Command::CaptureScreenshot { format, quality, window_label }) => {
            assert_eq!(format.as_deref(), Some("jpeg"));
            assert_eq!(quality, Some(44));
            assert_eq!(window_label.as_deref(), Some("w"));
        }
        _ => panic!("unexpected decoding"),
    }
}

#[test]
fn execute_js_arguments_and_errors() {
    let no_args = decode_request(obj(vec![("command", s("execute_js"))]));
    assert_eq!(no_args.command.err().unwrap(), "Missing args");
    let no_script = decode_request(obj(vec![("command", s("execute_js")), ("args", obj(vec![]))]));
    assert_eq!(no_script.command.err().unwrap(), "Missing script argument");
    let ok = decode_request(obj(vec![("command", s("execute_js")), ("args", obj(vec![("script", s("1+1"))]))]));
    assert!(matches!(ok.command, Ok(Command::ExecuteJs { ref script, window_label: None }) if script == "1+1"));
}

fn context() -> WindowContext {
    WindowContext { window_label: "main".to_string(), total_windows: 1, warning: None }
}

#[test]
fn script_results_become_responses() {
    let run = ScriptRun::Completed(obj(vec![("success", Json::Bool(true)), ("data", Json::UInt(2))]));
    let r = script_response("x".to_string(), context(), run);
    assert!(r.success);
    assert!(matches!(r.data, Some(Payload::Value(Json::UInt(2)))));
    assert!(r.error.is_none());
    assert_eq!(r.window_context.unwrap().window_label, "main");
    let run = ScriptRun::Completed(obj(vec![("success", Json::Bool(false)), ("error", s("bad"))]));
    let r = script_response("x".to_string(), context(), run);
    assert!(!r.success);
    assert_eq!(r.error.as_deref(), Some("bad"));
    let r = script_response("x".to_string(), context(), ScriptRun::Completed(obj(vec![])));
    assert!(r.success);
    let r = script_response("x".to_string(), context(), ScriptRun::Failed("Script execution timeout".to_string()));
    assert!(!r.success);
    assert_eq!(r.error.as_deref(), Some("Script execution timeout"));
}

#[test]
fn dom_failures_are_reported_beside_registry_results() {
    let r = remove_response("1".to_string(), "s".to_string(), true, Err("gone".to_string()));
    assert!(r.success);
    assert_eq!(r.error.as_deref(), Some("Script removed from registry but DOM removal failed: gone"));
    let r = clear_response("1".to_string(), 3, Err("gone".to_string()));
    assert!(matches!(r.data, Some(Payload::Cleared { count: 3 })));
    assert_eq!(r.error.as_deref(), Some("Scripts cleared from registry but DOM clear failed: gone"));
    let r = clear_response("1".to_string(), 3, Ok(context()));
    assert!(r.error.is_none() && r.window_context.is_some());
    assert_eq!(dom_failure(DomOp::Inject, "e"), "Failed to inject script: e");
    assert_eq!(dom_failure(DomOp::Remove, "e"), "Failed to remove script: e");
    assert_eq!(dom_failure(DomOp::Clear, "e"), "Failed to clear scripts: e");
}

#[test]
fn value_and_error_responses() {
    let r = value_response("5".to_string(), Ok(Json::Null));
    assert!(r.success && matches!(r.data, Some(Payload::Value(Json::Null))));
    let r = value_response("5".to_string(), Err("nope".to_string()));
    assert!(!r.success && r.data.is_none());
    let r = error_response("6".to_string(), "x".to_string());
    assert_eq!(r.id, "6");
}

fn labels(v: &[&str]) -> Vec<String> {
    v.iter().map(|s| s.to_string()).collect()
}

#[test]
fn resolving_windows() {
    let c = resolve_window_with_context(&labels(&["main"]), None).ok().unwrap();
    assert_eq!(c.window_label, "main");
    assert_eq!(c.total_windows, 1);
    assert!(c.warning.is_none());
    let c = resolve_window_with_context(&labels(&["main", "b", "c"]), None).ok().unwrap();
    assert_eq!(
        c.warning.as_deref(),
        Some("Multiple windows detected (3 total). Defaulting to 'main' window. Use windowId parameter to target a specific window. Available windows: main, b, c")
    );
    let c = resolve_window_with_context(&labels(&["main", "b"]), Some("b".to_string())).ok().unwrap();
    assert_eq!(c.window_label, "b");
    assert!(c.warning.is_none());
    let e = resolve_window_with_context(&labels(&["main"]), Some("zz".to_string())).err().unwrap();
    assert_eq!(e, "Window 'zz' not found");
    let e = resolve_window_with_context(&labels(&[]), None).err().unwrap();
    assert_eq!(e, "Window 'main' not found");
}

fn info(label: &str) -> WindowInfo {
    WindowInfo { label: label.to_string(), title: None, url: None, focused: false, visible: true, is_main: label == "main" }
}

#[test]
fn windows_are_listed_main_first_then_by_label() {
    let r = windows_response("l".to_string(), vec![info("zeta"), info("alpha"), info("main"), info("beta")]);
    match r.data {
        Some(Payload::Windows(ws)) => {
            let names: Vec<&str> = ws.iter().map(|w| w.label.as_str()).collect();
            assert_eq!(names, vec!["main", "alpha", "beta", "zeta"]);
        }
        _ => panic!("expected windows"),
    }
}
