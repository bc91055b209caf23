//! Choosing the surface a command acts on, and listing surfaces.
use vstd::prelude::*;
use crate::text::{decimal, decimal_string};
use crate::json::same_text;
use vstd::multiset::Multiset;

verus! {

broadcast use vstd::seq_lib::group_to_multiset_ensures, vstd::multiset::group_multiset_axioms;

/// Label of the primary surface, used when a command names none.
pub open spec fn main_label() -> Seq<char> {
    "main"@
}

/// A surface as listed to clients.
#[derive(Debug)]
pub struct WindowInfo {
    /// Unique label of the surface.
    pub label: String,
    pub title: Option<String>,
    pub url: Option<String>,
    pub focused: bool,
    pub visible: bool,
    /// Whether this is the primary surface.
    pub is_main: bool,
}

/// Which surface an operation used, attached to its response.
#[derive(Debug)]
pub struct WindowContext {
    pub window_label: String,
    pub total_windows: usize,
    /// Advice given when several surfaces exist and none was named.
    pub warning: Option<String>,
}

/// `labels` joined with `, `.
pub open spec fn joined(labels: Seq<Seq<char>>) -> Seq<char>
    decreases labels.len(),
{
    if labels.len() == 0 {
        Seq::empty()
    } else if labels.len() == 1 {
        labels[0]
    } else {
        joined(labels.drop_last()) + ", "@ + labels.last()
    }
}

/// The labels of `ws`.
pub open spec fn label_views(ws: Seq<String>) -> Seq<Seq<char>> {
    ws.map_values(|s: String| s@)
}

/// Advice for a command that named no surface while several exist.
pub open spec fn ambiguity_warning(labels: Seq<Seq<char>>) -> Seq<char> {
    "Multiple windows detected ("@ + decimal(labels.len()) + " total). Defaulting to 'main' window. Use windowId parameter to target a specific window. Available windows: "@
        + joined(labels)
}

/// Error text for a surface that does not exist.
pub open spec fn not_found(label: Seq<char>) -> Seq<char> {
    "Window '"@ + label + "' not found"@
}

fn join_labels(labels: &Vec<String>) -> (r: String)
    ensures
        r@ == joined(label_views(labels@)),
{
    let mut r = String::new();
    let mut i: usize = 0;
    while i < labels.len()
        invariant
            i <= labels@.len(),
            r@ == joined(label_views(labels@.subrange(0, i as int))),
        decreases labels@.len() - i,
    {
        let ghost before = labels@.subrange(0, i as int);
        let ghost after = labels@.subrange(0, i + 1);
        assert(label_views(after).drop_last() =~= label_views(before));
        if i > 0 {
            r = r.concat(", ");
        }
        r = r.concat(labels[i].as_str());
        proof {
            if i == 0 {
                assert(r@ =~= joined(label_views(after)));
            }
        }
        i = i + 1;
    }
    assert(labels@.subrange(0, labels@.len() as int) =~= labels@);
    r
}

fn warning_text(labels: &Vec<String>) -> (r: String)
    ensures
        r@ == ambiguity_warning(label_views(labels@)),
{
    let n = decimal_string(labels.len() as u64);
    let list = join_labels(labels);
    String::from_str("Multiple windows detected (").concat(n.as_str()).concat(
        " total). Defaulting to 'main' window. Use windowId parameter to target a specific window. Available windows: ",
    ).concat(list.as_str())
}

fn label_index(labels: &Vec<String>, target: &str) -> (i: usize)
    ensures
        i <= labels@.len(),
        forall|j: int| 0 <= j < i ==> labels@[j]@ != target@,
        i < labels@.len() ==> labels@[i as int]@ == target@,
{
    let mut i: usize = 0;
    while i < labels.len()
        invariant
            i <= labels@.len(),
            forall|j: int| 0 <= j < i ==> labels@[j]@ != target@,
        decreases labels@.len() - i,
    {
        if same_text(labels[i].as_str(), target) {
            return i;
        }
        i = i + 1;
    }
    i
}

/// The context that resolving `label` among `labels` gives, where it succeeds.
pub open spec fn resolved(labels: Seq<Seq<char>>, label: Option<Seq<char>>, c: WindowContext) -> bool {
    &&& c.window_label@ == (match label { Some(l) => l, None => main_label() })
    &&& c.total_windows == labels.len()
    &&& if label is None && labels.len() > 1 {
        c.warning matches Some(w) && w@ == ambiguity_warning(labels)
    } else {
        c.warning is None
    }
}

/// Resolves the surface a command acts on among the current `labels`: the
/// one named, or the primary surface when none is named. Fails where that
/// surface does not exist. Naming none while several exist yields a warning.
pub fn resolve_window_with_context(labels: &Vec<String>, label: Option<String>) -> (r: Result<WindowContext, String>)
    ensures
        ({
            let target = match label { Some(l) => l@, None => main_label() };
            match r {
                Ok(c) => label_views(labels@).contains(target)
                    && resolved(label_views(labels@), match label { Some(l) => Some(l@), None => None }, c),
                Err(e) => !label_views(labels@).contains(target) && e@ == not_found(target),
            }
        }),
{
    let explicit = label.is_some();
    let target = match label {
        Some(l) => l,
        None => String::from_str("main"),
    };
    let i = label_index(labels, target.as_str());
    if i == labels.len() {
        assert(!label_views(labels@).contains(target@)) by {
            if label_views(labels@).contains(target@) {
                let k = choose|k: int| 0 <= k < label_views(labels@).len() && label_views(labels@)[k] == target@;
                assert(labels@[k]@ == target@);
            }
        }
        let e = String::from_str("Window '").concat(target.as_str()).concat("' not found");
        return Err(e);
    }
    assert(label_views(labels@)[i as int] == target@);
    let warning = if !explicit && labels.len() > 1 {
        Some(warning_text(labels))
    } else {
        None
    };
    Ok(WindowContext { window_label: target, total_windows: labels.len(), warning })
}

/// Resolves the surface a command acts on, without context: the label of the
/// one named, or of the primary surface when none is named, where it exists.
pub fn resolve_window(labels: &Vec<String>, label: Option<String>) -> (r: Result<String, String>)
    ensures
        ({
            let target = match label { Some(l) => l@, None => main_label() };
            match r {
                Ok(l) => l@ == target && label_views(labels@).contains(target),
                Err(e) => !label_views(labels@).contains(target) && e@ == not_found(target),
            }
        }),
{
    match resolve_window_with_context(labels, label) {
        Ok(c) => Ok(c.window_label),
        Err(e) => Err(e),
    }
}

/// Lexicographic order of code points, as std orders strings.
pub open spec fn text_le(a: Seq<char>, b: Seq<char>) -> bool
    decreases a.len(),
{
    if a.len() == 0 {
        true
    } else if b.len() == 0 {
        false
    } else if a[0] != b[0] {
        a[0] < b[0]
    } else {
        text_le(a.drop_first(), b.drop_first())
    }
}

/// Relies on `<=` on `str`: strings compare lexicographically by code point.
#[verifier::external_body]
fn text_le_exec(a: &str, b: &str) -> (r: bool)
    ensures
        r == text_le(a@, b@),
{
    a <= b
}

proof fn lemma_text_total(a: Seq<char>, b: Seq<char>)
    ensures
        text_le(a, b) || text_le(b, a),
    decreases a.len(),
{
    if a.len() > 0 && b.len() > 0 {
        if a[0] == b[0] {
            lemma_text_total(a.drop_first(), b.drop_first());
        }
    }
}

proof fn lemma_text_trans(a: Seq<char>, b: Seq<char>, c: Seq<char>)
    requires
        text_le(a, b),
        text_le(b, c),
    ensures
        text_le(a, c),
    decreases a.len(),
{
    if a.len() > 0 && b.len() > 0 && c.len() > 0 && a[0] == b[0] && b[0] == c[0] {
        lemma_text_trans(a.drop_first(), b.drop_first(), c.drop_first());
    }
}

/// Listing order: the primary surface first, then by label.
pub open spec fn listed_before(a: WindowInfo, b: WindowInfo) -> bool {
    if a.is_main != b.is_main {
        a.is_main
    } else {
        text_le(a.label@, b.label@)
    }
}

proof fn lemma_listed_total(a: WindowInfo, b: WindowInfo)
    ensures
        listed_before(a, b) || listed_before(b, a),
{
    lemma_text_total(a.label@, b.label@);
}

proof fn lemma_listed_trans(a: WindowInfo, b: WindowInfo, c: WindowInfo)
    requires
        listed_before(a, b),
        listed_before(b, c),
    ensures
        listed_before(a, c),
{
    if a.is_main == b.is_main && b.is_main == c.is_main {
        lemma_text_trans(a.label@, b.label@, c.label@);
    }
}

/// `ws` is in listing order.
pub open spec fn in_listing_order(ws: Seq<WindowInfo>) -> bool {
    forall|i: int, j: int| 0 <= i < j < ws.len() ==> listed_before(ws[i], ws[j])
}

fn before_exec(a: &WindowInfo, b: &WindowInfo) -> (r: bool)
    ensures
        r == listed_before(*a, *b),
{
    if a.is_main != b.is_main {
        a.is_main
    } else {
        text_le_exec(a.label.as_str(), b.label.as_str())
    }
}

/// Puts surfaces in listing order: the primary one first, the others by label.
pub fn order_windows(windows: Vec<WindowInfo>) -> (r: Vec<WindowInfo>)
    ensures
        r@.to_multiset() == windows@.to_multiset(),
        in_listing_order(r@),
{
    let mut rest = windows;
    let mut out: Vec<WindowInfo> = Vec::new();
    let ghost all = rest@;
    assert(out@.to_multiset() =~= Multiset::empty());
    assert(out@.to_multiset().add(rest@.to_multiset()) =~= all.to_multiset());
    while rest.len() > 0
        invariant
            in_listing_order(out@),
            out@.to_multiset().add(rest@.to_multiset()) == all.to_multiset(),
        decreases rest@.len(),
    {
        let ghost rest0 = rest@;
        let w = rest.pop().unwrap();
        assert(rest0 =~= rest@.push(w));
        proof {
            vstd::seq_lib::to_multiset_build(rest@, w);
        }
        let mut pos: usize = 0;
        while pos < out.len() && before_exec(&out[pos], &w)
            invariant
                pos <= out@.len(),
                forall|k: int| 0 <= k < pos ==> listed_before(out@[k], w),
            decreases out@.len() - pos,
        {
            pos = pos + 1;
        }
        let ghost out0 = out@;
        proof {
            if pos < out0.len() {
                lemma_listed_total(out0[pos as int], w);
            }
        }
        out.insert(pos, w);
        assert forall|i: int, j: int| 0 <= i < j < out@.len() implies listed_before(out@[i], out@[j]) by {
            if j < pos {
                assert(out@[i] == out0[i] && out@[j] == out0[j]);
            } else if j == pos {
                assert(out@[i] == out0[i]);
            } else if i == pos {
                assert(out@[j] == out0[j - 1]);
                if j - 1 > pos {
                    assert(listed_before(out0[pos as int], out0[j - 1]));
                    lemma_listed_trans(w, out0[pos as int], out0[j - 1]);
                }
            } else if i < pos {
                assert(out@[i] == out0[i] && out@[j] == out0[j - 1]);
            } else {
                assert(out@[i] == out0[i - 1] && out@[j] == out0[j - 1]);
            }
        }
    }
    assert(rest@.to_multiset().len() == 0);
    assert(rest@.to_multiset() =~= Multiset::empty());
    assert(out@.to_multiset() =~= windows@.to_multiset());
    out
}

} // verus!
