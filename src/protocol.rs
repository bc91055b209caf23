//! The command protocol: decoding request envelopes, dispatching commands to
//! the registries, and building the correlated response envelopes.
use vstd::prelude::*;
use crate::json::{Json, get, text, count};
use crate::script_registry::{ScriptEntry, ScriptType};

verus! {

/// A recognised command with its arguments.
pub enum Command {
    GetWindowInfo { window_label: Option<String> },
    GetBackendState,
    StartIpcMonitor,
    StopIpcMonitor,
    GetIpcEvents,
    EmitEvent { event_name: String, payload: Json },
    ListWindows,
    ExecuteJs { script: String, window_label: Option<String> },
    CaptureScreenshot { format: Option<String>, quality: Option<u8>, window_label: Option<String> },
    RegisterScript { entry: ScriptEntry, window_label: Option<String> },
    RemoveScript { script_id: String, window_label: Option<String> },
    ClearScripts { window_label: Option<String> },
    GetScripts,
}

/// A decoded request: the client's id, and the command or the reason it
/// cannot be run.
pub struct Request {
    pub id: String,
    pub command: Result<Command, String>,
}

/// Views of an optional string.
pub open spec fn opt_view(s: Option<String>) -> Option<Seq<char>> {
    match s {
        Some(t) => Some(t@),
        None => None,
    }
}

/// Text of `j`, or `d` where `j` is not a string.
pub open spec fn text_or(j: Option<Json>, d: Seq<char>) -> Seq<char> {
    match text(j) {
        Some(t) => t,
        None => d,
    }
}

/// The id a frame carries: its `id` string, or empty.
pub open spec fn frame_id(f: Json) -> Seq<char> {
    text_or(get(Some(f), "id"@), Seq::empty())
}

/// The command a frame names: its `command` string, or `unknown`.
pub open spec fn frame_command(f: Json) -> Seq<char> {
    text_or(get(Some(f), "command"@), "unknown"@)
}

/// The command that an `invoke_tauri` frame with arguments `args` decodes to.
pub open spec fn invoke_decoded(args: Option<Json>, c: Result<Command, String>) -> bool {
    let label = text(get(get(args, "args"@), "windowLabel"@));
    match text(get(args, "command"@)) {
        None => c matches Err(e) && e@ == "Missing command in args"@,
        Some(name) => if name == "plugin:mcp-bridge|get_window_info"@ {
            c matches Ok(Command::GetWindowInfo { window_label }) && opt_view(window_label) == label
        } else if name == "plugin:mcp-bridge|get_backend_state"@ {
            c matches Ok(Command::GetBackendState)
        } else if name == "plugin:mcp-bridge|start_ipc_monitor"@ {
            c matches Ok(Command::StartIpcMonitor)
        } else if name == "plugin:mcp-bridge|stop_ipc_monitor"@ {
            c matches Ok(Command::StopIpcMonitor)
        } else if name == "plugin:mcp-bridge|get_ipc_events"@ {
            c matches Ok(Command::GetIpcEvents)
        } else if name == "plugin:mcp-bridge|emit_event"@ {
            match text(get(get(args, "args"@), "eventName"@)) {
                Some(ev) => c matches Ok(Command::EmitEvent { event_name, payload })
                    && event_name@ == ev
                    && payload == (match get(get(args, "args"@), "payload"@) {
                        Some(p) => p,
                        None => Json::Null,
                    }),
                None => c matches Err(e) && e@ == "Missing eventName in args"@,
            }
        } else {
            c matches Err(e) && e@ == "Unsupported Tauri command: "@ + name
        },
    }
}

/// The script entry that `register_script` arguments describe.
pub open spec fn entry_of(args: Option<Json>, e: ScriptEntry) -> bool {
    &&& Some(e.id@) == text(get(args, "id"@))
    &&& Some(e.content@) == text(get(args, "content"@))
    &&& e.script_type == (if text(get(args, "type"@)) == Some("url"@) {
        ScriptType::Url
    } else {
        ScriptType::Inline
    })
}

/// The command that a frame decodes to.
pub open spec fn decoded(f: Json, c: Result<Command, String>) -> bool {
    let name = frame_command(f);
    let args = get(Some(f), "args"@);
    let label = text(get(args, "windowLabel"@));
    if name == "invoke_tauri"@ {
        if args is None {
            c matches Err(e) && e@ == "Missing args for invoke_tauri"@
        } else {
            invoke_decoded(args, c)
        }
    } else if name == "list_windows"@ {
        c matches Ok(Command::ListWindows)
    } else if name == "execute_js"@ {
        if args is None {
            c matches Err(e) && e@ == "Missing args"@
        } else {
            match text(get(args, "script"@)) {
                Some(s) => c matches Ok(Command::ExecuteJs { script, window_label })
                    && script@ == s && opt_view(window_label) == label,
                None => c matches Err(e) && e@ == "Missing script argument"@,
            }
        }
    } else if name == "capture_native_screenshot"@ {
        c matches Ok(Command::CaptureScreenshot { format, quality, window_label })
            && opt_view(format) == text(get(args, "format"@))
            && quality == (match count(get(args, "quality"@)) {
                Some(q) => Some((q % 256) as u8),
                None => None,
            })
            && opt_view(window_label) == label
    } else if name == "register_script"@ {
        if args is None {
            c matches Err(e) && e@ == "Missing args for register_script"@
        } else if text(get(args, "id"@)) is Some && text(get(args, "type"@)) is Some
            && text(get(args, "content"@)) is Some {
            c matches Ok(Command::RegisterScript { entry, window_label })
                && entry_of(args, entry) && opt_view(window_label) == label
        } else {
            c matches Err(e) && e@ == "Missing required args: id, type, content"@
        }
    } else if name == "remove_script"@ {
        if args is None {
            c matches Err(e) && e@ == "Missing args for remove_script"@
        } else {
            match text(get(args, "id"@)) {
                Some(i) => c matches Ok(Command::RemoveScript { script_id, window_label })
                    && script_id@ == i && opt_view(window_label) == label,
                None => c matches Err(e) && e@ == "Missing script id"@,
            }
        }
    } else if name == "clear_scripts"@ {
        c matches Ok(Command::ClearScripts { window_label }) && opt_view(window_label) == label
    } else if name == "get_scripts"@ {
        c matches Ok(Command::GetScripts)
    } else {
        c matches Err(e) && e@ == "Unknown command: "@ + name
    }
}

fn text_of(j: Option<&Json>) -> (r: Option<String>)
    ensures
        opt_view(r) == text(match j { Some(v) => Some(*v), None => None }),
{
    match j {
        Some(v) => match v.as_str() {
            Some(s) => Some(String::from_str(s)),
            None => None,
        },
        None => None,
    }
}

fn member_of<'a>(j: Option<&'a Json>, key: &str) -> (r: Option<&'a Json>)
    ensures
        (match r { Some(v) => Some(*v), None => None }) == get(match j { Some(v) => Some(*v), None => None }, key@),
{
    match j {
        Some(v) => v.get(key),
        None => None,
    }
}

fn message(s: &str) -> (r: Result<Command, String>)
    ensures
        r matches Err(e) && e@ == s@,
{
    Err(String::from_str(s))
}

fn decode_invoke(args: Json) -> (r: Result<Command, String>)
    ensures
        invoke_decoded(Some(args), r),
{
    let mut args = args;
    let name = match text_of(args.get("command")) {
        Some(n) => n,
        None => return message("Missing command in args"),
    };
    let inner_label = text_of(member_of(member_of(Some(&args), "args"), "windowLabel"));
    let n = name.as_str();
    if crate::json::same_text(n, "plugin:mcp-bridge|get_window_info") {
        Ok(Command::GetWindowInfo { window_label: inner_label })
    } else if crate::json::same_text(n, "plugin:mcp-bridge|get_backend_state") {
        Ok(Command::GetBackendState)
    } else if crate::json::same_text(n, "plugin:mcp-bridge|start_ipc_monitor") {
        Ok(Command::StartIpcMonitor)
    } else if crate::json::same_text(n, "plugin:mcp-bridge|stop_ipc_monitor") {
        Ok(Command::StopIpcMonitor)
    } else if crate::json::same_text(n, "plugin:mcp-bridge|get_ipc_events") {
        Ok(Command::GetIpcEvents)
    } else if crate::json::same_text(n, "plugin:mcp-bridge|emit_event") {
        match text_of(member_of(member_of(Some(&args), "args"), "eventName")) {
            Some(event_name) => {
                let payload = match args.take("args") {
                    Some(inner) => {
                        let mut inner = inner;
                        match inner.take("payload") {
                            Some(p) => p,
                            None => Json::Null,
                        }
                    },
                    None => Json::Null,
                };
                Ok(Command::EmitEvent { event_name, payload })
            },
            None => message("Missing eventName in args"),
        }
    } else {
        Err(String::from_str("Unsupported Tauri command: ").concat(n))
    }
}

/// Decodes a request frame into the client's id and the command to run.
pub fn decode_request(frame: Json) -> (r: Request)
    ensures
        r.id@ == frame_id(frame),
        decoded(frame, r.command),
{
    let mut frame = frame;
    let id = match text_of(frame.get("id")) {
        Some(i) => i,
        None => String::new(),
    };
    let name = match text_of(frame.get("command")) {
        Some(n) => n,
        None => String::from_str("unknown"),
    };
    let ghost f = frame;
    let n = name.as_str();
    let command = if crate::json::same_text(n, "invoke_tauri") {
        match frame.take("args") {
            Some(args) => decode_invoke(args),
            None => message("Missing args for invoke_tauri"),
        }
    } else if crate::json::same_text(n, "list_windows") {
        Ok(Command::ListWindows)
    } else if crate::json::same_text(n, "execute_js") {
        let args = frame.get("args");
        if args.is_none() {
            message("Missing args")
        } else {
            match text_of(member_of(args, "script")) {
                Some(script) => Ok(Command::ExecuteJs { script, window_label: text_of(member_of(args, "windowLabel")) }),
                None => message("Missing script argument"),
            }
        }
    } else if crate::json::same_text(n, "capture_native_screenshot") {
        let args = frame.get("args");
        let quality = match member_of(args, "quality") {
            Some(q) => match q.as_u64() {
                Some(v) => Some((v % 256) as u8),
                None => None,
            },
            None => None,
        };
        Ok(Command::CaptureScreenshot {
            format: text_of(member_of(args, "format")),
            quality,
            window_label: text_of(member_of(args, "windowLabel")),
        })
    } else if crate::json::same_text(n, "register_script") {
        let args = frame.get("args");
        if args.is_none() {
            message("Missing args for register_script")
        } else {
            let sid = text_of(member_of(args, "id"));
            let kind = text_of(member_of(args, "type"));
            let content = text_of(member_of(args, "content"));
            match (sid, kind, content) {
                (Some(sid), Some(kind), Some(content)) => {
                    let script_type = if crate::json::same_text(kind.as_str(), "url") {
                        ScriptType::Url
                    } else {
                        ScriptType::Inline
                    };
                    Ok(Command::RegisterScript {
                        entry: ScriptEntry { id: sid, script_type, content },
                        window_label: text_of(member_of(args, "windowLabel")),
                    })
                },
                _ => message("Missing required args: id, type, content"),
            }
        }
    } else if crate::json::same_text(n, "remove_script") {
        let args = frame.get("args");
        if args.is_none() {
            message("Missing args for remove_script")
        } else {
            match text_of(member_of(args, "id")) {
                Some(script_id) => Ok(Command::RemoveScript { script_id, window_label: text_of(member_of(args, "windowLabel")) }),
                None => message("Missing script id"),
            }
        }
    } else if crate::json::same_text(n, "clear_scripts") {
        Ok(Command::ClearScripts { window_label: text_of(member_of(frame.get("args"), "windowLabel")) })
    } else if crate::json::same_text(n, "get_scripts") {
        Ok(Command::GetScripts)
    } else {
        Err(String::from_str("Unknown command: ").concat(n))
    };
    Request { id, command }
}

} // verus!
