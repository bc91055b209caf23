//! Turning caller snippets into self-reporting units of page script, and the
//! page scripts that add, remove and clear injected content scripts.
use vstd::prelude::*;
use crate::text::{contains, ends_with, trimmed, trim, starts_with, ends_with_str, contains_str, json_quoted, json_string_literal};
use crate::script_registry::{ScriptEntry, ScriptType};

verus! {

/// The snippet is already an explicit return.
pub open spec fn is_return(t: Seq<char>) -> bool {
    "return "@.is_prefix_of(t)
}

/// The snippet holds a `;` other than a single trailing one.
pub open spec fn has_separator(t: Seq<char>) -> bool {
    if ends_with(t, ";"@) {
        contains(t.drop_last(), ";"@)
    } else {
        contains(t, ";"@)
    }
}

/// The snippet opens with a declaration or a control-flow keyword.
pub open spec fn starts_with_statement(t: Seq<char>) -> bool {
    "const "@.is_prefix_of(t) || "let "@.is_prefix_of(t) || "var "@.is_prefix_of(t)
        || "if "@.is_prefix_of(t) || "for "@.is_prefix_of(t) || "while "@.is_prefix_of(t)
        || "function "@.is_prefix_of(t) || "class "@.is_prefix_of(t) || "try "@.is_prefix_of(t)
}

/// The snippet reads as a single expression: it opens with `await `, `(`,
/// `JSON.`, `{` or `[`, or ends with an immediately invoked call.
pub open spec fn is_expression(t: Seq<char>) -> bool {
    "await "@.is_prefix_of(t) || "("@.is_prefix_of(t) || "JSON."@.is_prefix_of(t)
        || "{"@.is_prefix_of(t) || "["@.is_prefix_of(t) || ends_with(t, ")()"@)
}

/// Whether the snippet gets an implicit `return`.
pub open spec fn needs_return(t: Seq<char>) -> bool {
    !is_return(t) && (is_expression(t) || !(has_separator(t) || starts_with_statement(t)))
}

/// The prepared form of a snippet: its trimmed text after `return ` where it
/// needs one, and the snippet unchanged otherwise.
pub open spec fn prepared(s: Seq<char>) -> Seq<char> {
    if needs_return(trimmed(s)) {
        "return "@ + trimmed(s)
    } else {
        s
    }
}

fn has_separator_exec(t: &str) -> (r: bool)
    ensures
        r == has_separator(t@),
{
    if ends_with_str(t, ";") {
        let n = t.unicode_len();
        proof {
            reveal_strlit(";");
        }
        let head = t.substring_char(0, n - 1);
        assert(head@ =~= t@.drop_last());
        contains_str(head, ";")
    } else {
        contains_str(t, ";")
    }
}

/// Prepares a snippet for execution as a function body: a single expression
/// is turned into a `return`, while an explicit return or a sequence of
/// statements is left as it is.
pub fn prepare_script(script: &str) -> (r: String)
    ensures
        r@ == prepared(script@),
{
    let t = trim(script);
    let is_return = starts_with(t, "return ");
    let multi = has_separator_exec(t) || starts_with(t, "const ") || starts_with(t, "let ")
        || starts_with(t, "var ") || starts_with(t, "if ") || starts_with(t, "for ")
        || starts_with(t, "while ") || starts_with(t, "function ") || starts_with(t, "class ")
        || starts_with(t, "try ");
    let expression = starts_with(t, "await ") || starts_with(t, "(") || starts_with(t, "JSON.")
        || starts_with(t, "{") || starts_with(t, "[") || ends_with_str(t, ")()");
    if !is_return && (expression || !multi) {
        String::from_str("return ").concat(t)
    } else {
        String::from_str(script)
    }
}

/// Whether a snippet has to run as asynchronous code.
pub open spec fn is_async(s: Seq<char>) -> bool {
    contains(s, "await "@) || contains(s, ".then("@)
}

/// Whether a snippet has to run as asynchronous code: it awaits or chains on a
/// promise.
pub fn needs_async(script: &str) -> (r: bool)
    ensures
        r == is_async(script@),
{
    contains_str(script, "await ") || contains_str(script, ".then(")
}

pub open spec fn sync_head() -> Seq<char> {
    "(function() { try { const __fn = function() { "@
}

pub open spec fn sync_tail() -> Seq<char> {
    " }; const __result = __fn(); return JSON.stringify({ success: true, data: __result !== undefined ? __result : null }); } catch (e) { return JSON.stringify({ success: false, error: e.message || String(e) }); } })()"@
}

/// The synchronous unit around a prepared body: it returns the JSON text of
/// `{success, data}` or `{success, error}`.
pub open spec fn sync_wrapped(body: Seq<char>) -> Seq<char> {
    sync_head() + body + sync_tail()
}

/// Wraps a prepared body into a synchronous self-reporting unit.
pub fn wrap_sync(body: &str) -> (r: String)
    ensures
        r@ == sync_wrapped(body@),
{
    String::from_str("(function() { try { const __fn = function() { ").concat(body).concat(
        " }; const __result = __fn(); return JSON.stringify({ success: true, data: __result !== undefined ? __result : null }); } catch (e) { return JSON.stringify({ success: false, error: e.message || String(e) }); } })()",
    )
}

/// Name of the page variable that receives an asynchronous result.
pub open spec fn result_slot(id: Seq<char>) -> Seq<char> {
    "window.__mcp_result_"@ + id
}

/// The asynchronous unit around a prepared body: it stores the JSON text of
/// its outcome in the result slot of `id`, and evaluates to that slot or to
/// `{"pending":true}` while the body has not settled.
pub open spec fn async_wrapped(body: Seq<char>, id: Seq<char>) -> Seq<char> {
    "(async function() { try { const __fn = async () => { "@ + body
        + " }; const __result = await __fn(); "@ + result_slot(id)
        + " = JSON.stringify({ success: true, data: __result !== undefined ? __result : null }); } catch (e) { "@
        + result_slot(id) + " = JSON.stringify({ success: false, error: e.message || String(e) }); } })(); "@
        + result_slot(id) + " || '{\"pending\":true}'"@
}

/// Script that reads the result slot of `id`.
pub fn poll_script(id: &str) -> (r: String)
    ensures
        r@ == result_slot(id@),
{
    String::from_str("window.__mcp_result_").concat(id)
}

/// Script that deletes the result slot of `id` once it has been read.
pub fn cleanup_script(id: &str) -> (r: String)
    ensures
        r@ == "delete "@ + result_slot(id@),
{
    let r = String::from_str("delete window.__mcp_result_").concat(id);
    proof {
        reveal_strlit("delete window.__mcp_result_");
        reveal_strlit("delete ");
        reveal_strlit("window.__mcp_result_");
    }
    assert(r@ =~= "delete "@ + result_slot(id@));
    r
}

/// Wraps a prepared body into an asynchronous unit that reports through the
/// result slot of `id`.
pub fn wrap_async(body: &str, id: &str) -> (r: String)
    ensures
        r@ == async_wrapped(body@, id@),
{
    let slot = poll_script(id);
    let r = String::from_str("(async function() { try { const __fn = async () => { ").concat(body)
        .concat(" }; const __result = await __fn(); ").concat(slot.as_str())
        .concat(" = JSON.stringify({ success: true, data: __result !== undefined ? __result : null }); } catch (e) { ")
        .concat(slot.as_str())
        .concat(" = JSON.stringify({ success: false, error: e.message || String(e) }); } })(); ")
        .concat(slot.as_str())
        .concat(" || '{\"pending\":true}'");
    assert(r@ =~= async_wrapped(body@, id@));
    r
}

/// A snippet made ready to run: the code to evaluate, and for asynchronous
/// code the id of the result slot to poll.
pub struct Execution {
    pub code: String,
    pub poll_id: Option<String>,
}

/// What `prepare_execution` builds from `script` when an asynchronous
/// snippet is given the result slot `id`.
pub open spec fn execution_of(script: Seq<char>, id: Option<Seq<char>>, e: Execution) -> bool {
    if is_async(script) {
        &&& e.poll_id matches Some(p)
        &&& id == Some(p@)
        &&& e.code@ == async_wrapped(prepared(script), p@)
    } else {
        &&& e.poll_id is None
        &&& e.code@ == sync_wrapped(prepared(script))
    }
}

/// Makes a snippet ready to run, with `id` as the result slot should it be
/// asynchronous.
pub fn prepare_execution_with(script: &str, id: String) -> (r: Execution)
    ensures
        execution_of(script@, if is_async(script@) { Some(id@) } else { None }, r),
{
    let body = prepare_script(script);
    if needs_async(script) {
        let code = wrap_async(body.as_str(), id.as_str());
        Execution { code, poll_id: Some(id) }
    } else {
        Execution { code: wrap_sync(body.as_str()), poll_id: None }
    }
}

/// Makes a snippet ready to run; an asynchronous one gets a fresh random
/// result slot.
pub fn prepare_execution(script: &str) -> (r: Execution)
    ensures
        !is_async(script@) ==> execution_of(script@, None, r),
        is_async(script@) ==> (r.poll_id matches Some(p) && execution_of(script@, Some(p@), r)
            && p@.len() == crate::executor::ID_LEN),
{
    let id = crate::executor::fresh_id();
    prepare_execution_with(script, id)
}

/// Whether a poll of a result slot found a settled result.
pub fn poll_ready(result: &str) -> (r: bool)
    ensures
        r == (result@ != "null"@ && result@ != "undefined"@ && result@.len() != 0),
{
    !crate::json::same_text(result, "null") && !crate::json::same_text(result, "undefined")
        && result.unicode_len() != 0
}

/// The string that the JSON string literal `s` denotes; none where `s` is
/// not a JSON string literal.
pub uninterp spec fn json_string_value(s: Seq<char>) -> Option<Seq<char>>;

/// Relies on `serde_json::from_str::<String>`: the string that a JSON string
/// literal denotes; an error where `s` is not one gives none.
#[verifier::external_body]
fn parse_json_string(s: &str) -> (r: Option<String>)
    ensures
        r matches Some(v) ==> json_string_value(s@) == Some(v@),
        r is None ==> json_string_value(s@) is None,
{
    serde_json::from_str::<String>(s).ok()
}

/// The result text is a quoted JSON string.
pub open spec fn is_quoted(raw: Seq<char>) -> bool {
    "\""@.is_prefix_of(raw) && ends_with(raw, "\""@)
}

/// A result text as a host that quotes results returned it, cleaned: a quoted
/// JSON string becomes the string it denotes (`decoded`, where it decoded),
/// and any other text is kept.
pub fn unquote_with(raw: &str, decoded: Option<String>) -> (r: String)
    ensures
        r@ == (if is_quoted(raw@) {
            match decoded {
                Some(v) => v@,
                None => raw@,
            }
        } else {
            raw@
        }),
{
    if starts_with(raw, "\"") && ends_with_str(raw, "\"") {
        match decoded {
            Some(v) => v,
            None => String::from_str(raw),
        }
    } else {
        String::from_str(raw)
    }
}

/// Cleans a result text that a host returned as a quoted JSON string.
pub fn unquote_result(raw: &str) -> (r: String)
    ensures
        r@ == (if is_quoted(raw@) {
            match json_string_value(raw@) {
                Some(v) => v,
                None => raw@,
            }
        } else {
            raw@
        }),
{
    let decoded = if starts_with(raw, "\"") && ends_with_str(raw, "\"") {
        parse_json_string(raw)
    } else {
        None
    };
    unquote_with(raw, decoded)
}

pub open spec fn selector(id: Seq<char>) -> Seq<char> {
    "document.querySelector('script[data-mcp-script-id=\""@ + id + "\"]')"@
}

/// Page script that puts `e` into the document, replacing an element that an
/// earlier injection of the same id left there.
pub open spec fn injection(e: ScriptEntry) -> Seq<char> {
    "(function() { var existing = "@ + selector(e.id@)
        + "; if (existing) { existing.remove(); } var script = document.createElement('script'); script.setAttribute('data-mcp-script-id', '"@
        + e.id@ + "'); "@
        + (if e.script_type == ScriptType::Inline { "script.textContent = "@ } else { "script.src = "@ })
        + json_quoted(e.content@)
        + (if e.script_type == ScriptType::Inline { "; "@ } else { "; script.async = true; "@ })
        + "document.head.appendChild(script); })();"@
}

fn selector_exec(id: &str) -> (r: String)
    ensures
        r@ == selector(id@),
{
    String::from_str("document.querySelector('script[data-mcp-script-id=\"").concat(id).concat("\"]')")
}

/// Builds the page script that injects `entry`.
pub fn injection_script(entry: &ScriptEntry) -> (r: String)
    ensures
        r@ == injection(*entry),
{
    let sel = selector_exec(entry.id.as_str());
    let quoted = json_string_literal(entry.content.as_str());
    let q = match quoted {
        Some(q) => q,
        None => String::new(),
    };
    let inline = entry.script_type == ScriptType::Inline;
    let r = String::from_str("(function() { var existing = ").concat(sel.as_str()).concat(
        "; if (existing) { existing.remove(); } var script = document.createElement('script'); script.setAttribute('data-mcp-script-id', '",
    ).concat(entry.id.as_str()).concat("'); ").concat(
        if inline { "script.textContent = " } else { "script.src = " },
    ).concat(q.as_str()).concat(if inline { "; " } else { "; script.async = true; " }).concat(
        "document.head.appendChild(script); })();",
    );
    assert(r@ =~= injection(*entry));
    r
}

/// The page scripts that re-apply every registered script to a surface that
/// reloaded, in registry order.
pub fn replay_scripts(registry: &crate::script_registry::ScriptRegistry) -> (r: Vec<String>)
    ensures
        r@.len() == registry@.len(),
        forall|i: int| 0 <= i < r@.len() ==> #[trigger] r@[i]@ == injection(registry@[i]),
{
    let entries = registry.get_all();
    let mut out: Vec<String> = Vec::new();
    let mut i: usize = 0;
    while i < entries.len()
        invariant
            i <= entries@.len(),
            entries@ == registry@,
            out@.len() == i,
            forall|k: int| 0 <= k < i ==> #[trigger] out@[k]@ == injection(registry@[k]),
        decreases entries@.len() - i,
    {
        out.push(injection_script(&entries[i]));
        i = i + 1;
    }
    out
}

/// Page script that removes the injected element of `id`.
pub open spec fn removal(id: Seq<char>) -> Seq<char> {
    "(function() { var script = "@ + selector(id) + "; if (script) { script.remove(); } })();"@
}

/// Builds the page script that removes the injected element of `id`.
pub fn removal_script(id: &str) -> (r: String)
    ensures
        r@ == removal(id@),
{
    let sel = selector_exec(id);
    let r = String::from_str("(function() { var script = ").concat(sel.as_str()).concat(
        "; if (script) { script.remove(); } })();",
    );
    assert(r@ =~= removal(id@));
    r
}

/// Page script that removes every injected element.
pub open spec fn clearing() -> Seq<char> {
    "(function() { var scripts = document.querySelectorAll('script[data-mcp-script-id]'); scripts.forEach(function(s) { s.remove(); }); })();"@
}

/// Builds the page script that removes every injected element.
pub fn clearing_script() -> (r: String)
    ensures
        r@ == clearing(),
{
    String::from_str(
        "(function() { var scripts = document.querySelectorAll('script[data-mcp-script-id]'); scripts.forEach(function(s) { s.remove(); }); })();",
    )
}

} // verus!
