use mcp_bridge::script::{
    clearing_script, cleanup_script, injection_script, needs_async, poll_ready, poll_script, prepare_execution,
    prepare_execution_with, prepare_script, removal_script, replay_scripts, unquote_result, unquote_with, wrap_sync,
};
use mcp_bridge::script_registry::{ScriptEntry, ScriptRegistry, ScriptType};

#[test]
fn expression_gets_implicit_return() {
    assert_eq!(prepare_script("1+1"), "return 1+1");
    assert_eq!(prepare_script("  document.title  "), "return document.title");
}

#[test]
fn two_statements_are_left_unwrapped() {
    assert_eq!(prepare_script("const x = 1; x"), "const x = 1; x");
}

#[test]
fn explicit_return_is_unchanged() {
    assert_eq!(prepare_script("return x"), "return x");
}

#[test]
fn single_trailing_semicolon_is_not_a_separator() {
    assert_eq!(prepare_script("foo();"), "return foo();");
    assert_eq!(prepare_script("a(); b();"), "a(); b();");
}

#[test]
fn declarations_and_control_flow_are_statements() {
    assert_eq!(prepare_script("let y = 2"), "let y = 2");
    assert_eq!(prepare_script("if (a) b"), "if (a) b");
}

#[test]
fn expression_forms_win_over_separators() {
    assert_eq!(prepare_script("(function() { a; b; })()"), "return (function() { a; b; })()");
    assert_eq!(prepare_script("await fetch(u); 1"), "return await fetch(u); 1");
    assert_eq!(prepare_script("[1, 2]"), "return [1, 2]");
}

#[test]
fn async_detection() {
    assert!(needs_async("await fetch('/')"));
    assert!(needs_async("p.then(x => x)"));
    assert!(!needs_async("1+1"));
}

#[test]
fn sync_execution_wraps_prepared_body() {
    let e = prepare_execution("1+1");
    assert!(e.poll_id.is_none());
    assert_eq!(e.code, wrap_sync("return 1+1"));
    assert!(e.code.starts_with("(function() { try { const __fn = function() { return 1+1 };"));
}

#[test]
fn async_execution_reports_through_its_slot() {
    let e = prepare_execution_with("await x", "abc".to_string());
    assert_eq!(e.poll_id.as_deref(), Some("abc"));
    assert!(e.code.contains("return await x"));
    assert!(e.code.contains("window.__mcp_result_abc = JSON.stringify"));
    assert!(e.code.ends_with("window.__mcp_result_abc || '{\"pending\":true}'"));
    let r = prepare_execution("await x");
    let id = r.poll_id.unwrap();
    assert_eq!(id.len(), 32);
    assert!(id.chars().all(|c| c.is_ascii_hexdigit() && !c.is_ascii_uppercase()));
}

#[test]
fn polling_scripts() {
    assert_eq!(poll_script("abc"), "window.__mcp_result_abc");
    assert_eq!(cleanup_script("abc"), "delete window.__mcp_result_abc");
    assert!(!poll_ready("null"));
    assert!(!poll_ready("undefined"));
    assert!(!poll_ready(""));
    assert!(poll_ready("{\"success\":true}"));
}

#[test]
fn injection_quotes_content_as_json() {
    let inline = ScriptEntry { id: "s1".to_string(), script_type: ScriptType::Inline, content: "alert(\"hi\")\n".to_string() };
    let s = injection_script(&inline);
    assert!(s.contains("script.textContent = \"alert(\\\"hi\\\")\\n\";"));
    assert!(s.contains("data-mcp-script-id=\"s1\""));
    let url = ScriptEntry { id: "s2".to_string(), script_type: ScriptType::Url, content: "https://x/a.js".to_string() };
    let s = injection_script(&url);
    assert!(s.contains("script.src = \"https://x/a.js\"; script.async = true;"));
}

#[test]
fn removal_and_clearing_scripts() {
    assert!(removal_script("s1").contains("script[data-mcp-script-id=\"s1\"]"));
    assert!(clearing_script().contains("querySelectorAll('script[data-mcp-script-id]')"));
}

#[test]
fn replay_follows_registry_order() {
    let mut reg = ScriptRegistry::new();
    reg.add(ScriptEntry { id: "b".to_string(), script_type: ScriptType::Inline, content: "1".to_string() });
    reg.add(ScriptEntry { id: "a".to_string(), script_type: ScriptType::Url, content: "u".to_string() });
    let scripts = replay_scripts(&reg);
    assert_eq!(scripts.len(), 2);
    assert!(scripts[0].contains("'b'"));
    assert!(scripts[1].contains("'a'"));
}

#[test]
fn quoted_results_are_decoded() {
    assert_eq!(unquote_result("\"{\\\"success\\\":true}\""), "{\"success\":true}");
    assert_eq!(unquote_result("{\"a\":1}"), "{\"a\":1}");
    assert_eq!(unquote_result("\"unterminated\\\""), "\"unterminated\\\"");
    assert_eq!(unquote_with("\"x\"", Some("y".to_string())), "y");
    assert_eq!(unquote_with("\"x\"", None), "\"x\"");
}
