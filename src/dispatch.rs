//! Running decoded commands: what the registries do at once, what the host
//! must do, and the response envelope that reports it.
use vstd::prelude::*;
use crate::json::{Json, get, text, flag};
use crate::monitor::{IPCEvent, IPCMonitor, started, stopped};
use crate::protocol::{Command, Request};
use crate::script_registry::{ScriptEntry, ScriptRegistry, added};
use crate::windows::{WindowContext, WindowInfo, in_listing_order};

verus! {

/// The `data` of a response.
pub enum Payload {
    /// A value produced by the host or the page.
    Value(Json),
    /// A message.
    Text(String),
    /// The monitor's log.
    Events(Vec<IPCEvent>),
    /// Surfaces in listing order.
    Windows(Vec<WindowInfo>),
    /// A script was registered.
    Registered { script_id: String },
    /// A script removal, and whether the registry held it.
    Removed { removed: bool, script_id: String },
    /// How many scripts were cleared.
    Cleared { count: usize },
    /// The registered scripts.
    Scripts(Vec<ScriptEntry>),
}

/// A response envelope, correlated with its request by `id`.
pub struct Response {
    pub id: String,
    pub success: bool,
    pub data: Option<Payload>,
    pub error: Option<String>,
    pub window_context: Option<WindowContext>,
}

/// Work that only the host can do, after which the matching response
/// function builds the reply.
pub enum HostCall {
    WindowInfo { window_label: Option<String> },
    BackendState,
    EmitEvent { event_name: String, payload: Json },
    ListWindows,
    ExecuteJs { script: String, window_label: Option<String> },
    Capture { format: Option<String>, quality: Option<u8>, window_label: Option<String> },
    /// The entry is registered already; it is to be injected into the surface.
    InjectScript { entry: ScriptEntry, window_label: Option<String> },
    /// The registry removal is done; the surface's element is to go.
    RemoveScript { script_id: String, removed: bool, window_label: Option<String> },
    /// The registry is cleared; the surface's elements are to go.
    ClearScripts { count: usize, window_label: Option<String> },
}

/// The next step for a request.
pub enum Step {
    Reply(Response),
    Host(HostCall),
}

/// `r` reports success with `data` and nothing else.
pub open spec fn ok_with(r: Response, id: Seq<char>, data: Payload) -> bool {
    &&& r.id@ == id
    &&& r.success
    &&& r.data == Some(data)
    &&& r.error is None
    &&& r.window_context is None
}

/// `r` reports success with the message `m`.
pub open spec fn ok_text(r: Response, id: Seq<char>, m: Seq<char>) -> bool {
    &&& r.id@ == id
    &&& r.success
    &&& r.data matches Some(Payload::Text(t)) && t@ == m
    &&& r.error is None
    &&& r.window_context is None
}

/// `r` reports the failure `e`.
pub open spec fn failed(r: Response, id: Seq<char>, e: Seq<char>) -> bool {
    &&& r.id@ == id
    &&& !r.success
    &&& r.data is None
    &&& r.error matches Some(m) && m@ == e
    &&& r.window_context is None
}

/// A response reporting the failure `error`.
pub fn error_response(id: String, error: String) -> (r: Response)
    ensures
        r.id == id,
        failed(r, id@, error@),
{
    Response { id, success: false, data: None, error: Some(error), window_context: None }
}

fn text_response(id: String, m: &str) -> (r: Response)
    ensures
        ok_text(r, id@, m@),
{
    Response { id, success: true, data: Some(Payload::Text(String::from_str(m))), error: None, window_context: None }
}

/// What dispatching `c` does and yields, given the registry and monitor
/// before (`reg0`, `mon0`) and after (`reg1`, `mon1`).
pub open spec fn dispatched(
    id: Seq<char>,
    c: Result<Command, String>,
    reg0: Seq<ScriptEntry>,
    reg1: Seq<ScriptEntry>,
    mon0: crate::monitor::MonitorState,
    mon1: crate::monitor::MonitorState,
    s: Step,
) -> bool {
    match c {
        Err(e) => reg1 == reg0 && mon1 == mon0 && (s matches Step::Reply(r) && failed(r, id, e@)),
        Ok(cmd) => match cmd {
            Command::StartIpcMonitor => reg1 == reg0 && mon1 == started(mon0)
                && (s matches Step::Reply(r) && ok_text(r, id, "IPC monitoring started"@)),
            Command::StopIpcMonitor => reg1 == reg0 && mon1 == stopped(mon0)
                && (s matches Step::Reply(r) && ok_text(r, id, "IPC monitoring stopped"@)),
            Command::GetIpcEvents => reg1 == reg0 && mon1 == mon0
                && (s matches Step::Reply(r) && r.id@ == id && r.success && r.error is None
                    && r.window_context is None && (r.data matches Some(Payload::Events(es)) && es@ == mon0.events)),
            Command::GetScripts => reg1 == reg0 && mon1 == mon0
                && (s matches Step::Reply(r) && r.id@ == id && r.success && r.error is None
                    && r.window_context is None && (r.data matches Some(Payload::Scripts(es)) && es@ == reg0)),
            Command::RegisterScript { entry, window_label } => mon1 == mon0 && reg1 == added(reg0, entry)
                && s == Step::Host(HostCall::InjectScript { entry, window_label }),
            Command::RemoveScript { script_id, window_label } => mon1 == mon0
                && (if crate::script_registry::find(reg0, script_id@) >= 0 {
                    reg1 == reg0.remove(crate::script_registry::find(reg0, script_id@))
                        && s == Step::Host(HostCall::RemoveScript { script_id, removed: true, window_label })
                } else {
                    reg1 == reg0 && s == Step::Host(HostCall::RemoveScript { script_id, removed: false, window_label })
                }),
            Command::ClearScripts { window_label } => mon1 == mon0 && reg1 == Seq::<ScriptEntry>::empty()
                && s == Step::Host(HostCall::ClearScripts { count: reg0.len() as usize, window_label }),
            Command::GetWindowInfo { window_label } => reg1 == reg0 && mon1 == mon0
                && s == Step::Host(HostCall::WindowInfo { window_label }),
            Command::GetBackendState => reg1 == reg0 && mon1 == mon0 && s == Step::Host(HostCall::BackendState),
            Command::EmitEvent { event_name, payload } => reg1 == reg0 && mon1 == mon0
                && s == Step::Host(HostCall::EmitEvent { event_name, payload }),
            Command::ListWindows => reg1 == reg0 && mon1 == mon0 && s == Step::Host(HostCall::ListWindows),
            Command::ExecuteJs { script, window_label } => reg1 == reg0 && mon1 == mon0
                && s == Step::Host(HostCall::ExecuteJs { script, window_label }),
            Command::CaptureScreenshot { format, quality, window_label } => reg1 == reg0 && mon1 == mon0
                && s == Step::Host(HostCall::Capture { format, quality, window_label }),
        },
    }
}

/// Runs a decoded request: registry and monitor commands take effect at once
/// and are answered, the rest become work for the host.
pub fn dispatch(request: Request, registry: &mut ScriptRegistry, monitor: &mut IPCMonitor) -> (s: Step)
    requires
        old(registry).wf(),
    ensures
        final(registry).wf(),
        dispatched(request.id@, request.command, old(registry)@, final(registry)@, old(monitor)@, final(monitor)@, s),
{
    let id = request.id;
    match request.command {
        Err(e) => Step::Reply(error_response(id, e)),
        Ok(cmd) => match cmd {
            Command::StartIpcMonitor => {
                monitor.start();
                Step::Reply(text_response(id, "IPC monitoring started"))
            },
            Command::StopIpcMonitor => {
                monitor.stop();
                Step::Reply(text_response(id, "IPC monitoring stopped"))
            },
            Command::GetIpcEvents => {
                let events = monitor.get_events();
                Step::Reply(Response { id, success: true, data: Some(Payload::Events(events)), error: None, window_context: None })
            },
            Command::GetScripts => {
                let scripts = registry.get_all();
                Step::Reply(Response { id, success: true, data: Some(Payload::Scripts(scripts)), error: None, window_context: None })
            },
            Command::RegisterScript { entry, window_label } => {
                registry.add(entry.duplicate());
                Step::Host(HostCall::InjectScript { entry, window_label })
            },
            Command::RemoveScript { script_id, window_label } => {
                let removed = registry.remove(script_id.as_str()).is_some();
                Step::Host(HostCall::RemoveScript { script_id, removed, window_label })
            },
            Command::ClearScripts { window_label } => {
                let count = registry.clear();
                Step::Host(HostCall::ClearScripts { count, window_label })
            },
            Command::GetWindowInfo { window_label } => Step::Host(HostCall::WindowInfo { window_label }),
            Command::GetBackendState => Step::Host(HostCall::BackendState),
            Command::EmitEvent { event_name, payload } => Step::Host(HostCall::EmitEvent { event_name, payload }),
            Command::ListWindows => Step::Host(HostCall::ListWindows),
            Command::ExecuteJs { script, window_label } => Step::Host(HostCall::ExecuteJs { script, window_label }),
            Command::CaptureScreenshot { format, quality, window_label } => Step::Host(
                HostCall::Capture { format, quality, window_label },
            ),
        },
    }
}

/// Every reply that dispatch gives at once carries the id of its request, so
/// a client can correlate it; the responses built after host work take the
/// id as an argument and carry it too.
pub proof fn lemma_reply_carries_id(
    id: Seq<char>,
    c: Result<Command, String>,
    reg0: Seq<ScriptEntry>,
    reg1: Seq<ScriptEntry>,
    mon0: crate::monitor::MonitorState,
    mon1: crate::monitor::MonitorState,
    r: Response,
)
    requires
        dispatched(id, c, reg0, reg1, mon0, mon1, Step::Reply(r)),
    ensures
        r.id@ == id,
{
}

/// The response to a host operation that yields a value or fails.
pub fn value_response(id: String, outcome: Result<Json, String>) -> (r: Response)
    ensures
        match outcome {
            Ok(v) => ok_with(r, id@, Payload::Value(v)),
            Err(e) => failed(r, id@, e@),
        },
{
    match outcome {
        Ok(v) => Response { id, success: true, data: Some(Payload::Value(v)), error: None, window_context: None },
        Err(e) => error_response(id, e),
    }
}

/// The response to emitting the event `event_name`.
pub fn emit_response(id: String, event_name: &str, outcome: Result<(), String>) -> (r: Response)
    ensures
        match outcome {
            Ok(_) => ok_text(r, id@, "Event '"@ + event_name@ + "' emitted successfully"@),
            Err(e) => failed(r, id@, "Failed to emit event: "@ + e@),
        },
{
    match outcome {
        Ok(_) => {
            let m = String::from_str("Event '").concat(event_name).concat("' emitted successfully");
            Response { id, success: true, data: Some(Payload::Text(m)), error: None, window_context: None }
        },
        Err(e) => error_response(id, String::from_str("Failed to emit event: ").concat(e.as_str())),
    }
}

/// The response listing `windows`, put in listing order.
pub fn windows_response(id: String, windows: Vec<WindowInfo>) -> (r: Response)
    ensures
        r.id == id,
        r.success,
        r.error is None,
        r.window_context is None,
        r.data matches Some(Payload::Windows(ws)) && ws@.to_multiset() == windows@.to_multiset()
            && in_listing_order(ws@),
{
    let ordered = crate::windows::order_windows(windows);
    Response { id, success: true, data: Some(Payload::Windows(ordered)), error: None, window_context: None }
}

/// How running a script in a surface ended.
pub enum ScriptRun {
    /// The unit reported this value: an object with `success`, and `data` or
    /// `error`.
    Completed(Json),
    /// Running it failed for this reason (evaluation refused, timeout, ...).
    Failed(String),
}

/// The response to a script execution in the surface of `context`: success
/// is what the unit reported (success where it did not say), with its
/// `data` and `error`.
pub fn script_response(id: String, context: WindowContext, run: ScriptRun) -> (r: Response)
    ensures
        r.id == id,
        r.window_context == Some(context),
        match run {
            ScriptRun::Completed(v) => {
                &&& r.success == (match flag(get(Some(v), "success"@)) { Some(b) => b, None => true })
                &&& r.data == (match get(Some(v), "data"@) { Some(d) => Some(Payload::Value(d)), None => None })
                &&& crate::protocol::opt_view(r.error) == text(get(Some(v), "error"@))
            },
            ScriptRun::Failed(e) => !r.success && r.data is None && (r.error matches Some(m) && m == e),
        },
{
    match run {
        ScriptRun::Completed(v) => {
            let mut v = v;
            let success = match v.get("success") {
                Some(s) => match s.as_bool() {
                    Some(b) => b,
                    None => true,
                },
                None => true,
            };
            let error = match v.get("error") {
                Some(e) => match e.as_str() {
                    Some(t) => Some(String::from_str(t)),
                    None => None,
                },
                None => None,
            };
            let data = match v.take("data") {
                Some(d) => Some(Payload::Value(d)),
                None => None,
            };
            Response { id, success, data, error, window_context: Some(context) }
        },
        ScriptRun::Failed(e) => Response { id, success: false, data: None, error: Some(e), window_context: Some(context) },
    }
}

/// The response to a capture of the surface of `context`: the image's data
/// URL, or the reason it failed.
pub fn capture_response(id: String, context: WindowContext, outcome: Result<String, String>) -> (r: Response)
    ensures
        r.id == id,
        r.window_context == Some(context),
        match outcome {
            Ok(url) => r.success && r.data == Some(Payload::Text(url)) && r.error is None,
            Err(e) => !r.success && r.data is None && r.error == Some(e),
        },
{
    match outcome {
        Ok(url) => Response { id, success: true, data: Some(Payload::Text(url)), error: None, window_context: Some(context) },
        Err(e) => Response { id, success: false, data: None, error: Some(e), window_context: Some(context) },
    }
}

/// The response to `register_script` once the injection into the surface
/// succeeded (with its context) or failed.
pub fn register_response(id: String, script_id: String, outcome: Result<WindowContext, String>) -> (r: Response)
    ensures
        r.id == id,
        match outcome {
            Ok(c) => r.success && r.data == Some(Payload::Registered { script_id }) && r.error is None
                && r.window_context == Some(c),
            Err(e) => failed(r, id@, e@),
        },
{
    match outcome {
        Ok(c) => Response { id, success: true, data: Some(Payload::Registered { script_id }), error: None, window_context: Some(c) },
        Err(e) => error_response(id, e),
    }
}

/// The response to `remove_script`: the registry removal stands even where
/// the surface could not be updated, which is then reported beside it.
pub fn remove_response(id: String, script_id: String, removed: bool, outcome: Result<WindowContext, String>) -> (r: Response)
    ensures
        r.id == id,
        r.success,
        r.data == Some(Payload::Removed { removed, script_id }),
        match outcome {
            Ok(c) => r.error is None && r.window_context == Some(c),
            Err(e) => r.window_context is None && (r.error matches Some(m)
                && m@ == "Script removed from registry but DOM removal failed: "@ + e@),
        },
{
    match outcome {
        Ok(c) => Response { id, success: true, data: Some(Payload::Removed { removed, script_id }), error: None, window_context: Some(c) },
        Err(e) => {
            let m = String::from_str("Script removed from registry but DOM removal failed: ").concat(e.as_str());
            Response { id, success: true, data: Some(Payload::Removed { removed, script_id }), error: Some(m), window_context: None }
        },
    }
}

/// The response to `clear_scripts`: the registry stays cleared even where the
/// surface could not be updated, which is then reported beside it.
pub fn clear_response(id: String, count: usize, outcome: Result<WindowContext, String>) -> (r: Response)
    ensures
        r.id == id,
        r.success,
        r.data == Some(Payload::Cleared { count }),
        match outcome {
            Ok(c) => r.error is None && r.window_context == Some(c),
            Err(e) => r.window_context is None && (r.error matches Some(m)
                && m@ == "Scripts cleared from registry but DOM clear failed: "@ + e@),
        },
{
    match outcome {
        Ok(c) => Response { id, success: true, data: Some(Payload::Cleared { count }), error: None, window_context: Some(c) },
        Err(e) => {
            let m = String::from_str("Scripts cleared from registry but DOM clear failed: ").concat(e.as_str());
            Response { id, success: true, data: Some(Payload::Cleared { count }), error: Some(m), window_context: None }
        },
    }
}

/// Page operations on injected scripts.
#[derive(Clone, Copy, Debug, PartialEq, Eq, Structural)]
pub enum DomOp {
    Inject,
    Remove,
    Clear,
}

/// Error text for a page operation that the surface refused with `e`.
pub fn dom_failure(op: DomOp, e: &str) -> (r: String)
    ensures
        r@ == (match op {
            DomOp::Inject => "Failed to inject script: "@,
            DomOp::Remove => "Failed to remove script: "@,
            DomOp::Clear => "Failed to clear scripts: "@,
        }) + e@,
{
    match op {
        DomOp::Inject => String::from_str("Failed to inject script: ").concat(e),
        DomOp::Remove => String::from_str("Failed to remove script: ").concat(e),
        DomOp::Clear => String::from_str("Failed to clear scripts: ").concat(e),
    }
}

} // verus!
