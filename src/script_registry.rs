//! Registry of content scripts that are re-applied to a surface whenever it
//! reloads: the durable record of what has been injected.
use vstd::prelude::*;

verus! {

/// How a script's content is to be read.
#[derive(Clone, Copy, Debug, PartialEq, Eq, Structural)]
pub enum ScriptType {
    /// The content is the script's source text.
    Inline,
    /// The content is the address of the script.
    Url,
}

/// A registered script.
#[derive(Debug)]
pub struct ScriptEntry {
    /// Identifier chosen by the caller; unique in a registry.
    pub id: String,
    pub script_type: ScriptType,
    pub content: String,
}

impl ScriptEntry {
    /// A copy of the entry.
    pub fn duplicate(&self) -> (r: ScriptEntry)
        ensures
            r == *self,
    {
        ScriptEntry { id: self.id.clone(), script_type: self.script_type, content: self.content.clone() }
    }
}

/// No two entries share an id.
pub open spec fn ids_unique(s: Seq<ScriptEntry>) -> bool {
    forall|i: int, j: int| 0 <= i < j < s.len() ==> s[i].id@ != s[j].id@
}

/// Index of the first entry whose id is `id`, or -1.
pub open spec fn find(s: Seq<ScriptEntry>, id: Seq<char>) -> int
    decreases s.len(),
{
    if s.len() == 0 {
        -1
    } else if find(s.drop_last(), id) >= 0 {
        find(s.drop_last(), id)
    } else if s.last().id@ == id {
        s.len() - 1
    } else {
        -1
    }
}

/// The entries after `e` is added: it takes the place of the entry with its
/// id, or comes last where there is none.
pub open spec fn added(s: Seq<ScriptEntry>, e: ScriptEntry) -> Seq<ScriptEntry> {
    if find(s, e.id@) >= 0 {
        s.update(find(s, e.id@), e)
    } else {
        s.push(e)
    }
}

/// The entries after adding each of `es` in turn.
pub open spec fn added_all(s: Seq<ScriptEntry>, es: Seq<ScriptEntry>) -> Seq<ScriptEntry>
    decreases es.len(),
{
    if es.len() == 0 {
        s
    } else {
        added(added_all(s, es.drop_last()), es.last())
    }
}

pub proof fn lemma_find(s: Seq<ScriptEntry>, id: Seq<char>)
    ensures
        -1 <= find(s, id) < s.len(),
        find(s, id) >= 0 ==> s[find(s, id)].id@ == id,
        find(s, id) >= 0 ==> forall|j: int| 0 <= j < find(s, id) ==> s[j].id@ != id,
        find(s, id) < 0 ==> forall|j: int| 0 <= j < s.len() ==> s[j].id@ != id,
    decreases s.len(),
{
    if s.len() > 0 {
        let init = s.drop_last();
        lemma_find(init, id);
        assert forall|j: int| 0 <= j < init.len() implies init[j] == s[j] by {}
        if find(init, id) < 0 && s.last().id@ != id {
            assert forall|j: int| 0 <= j < s.len() implies s[j].id@ != id by {
                if j < init.len() {
                    assert(init[j] == s[j]);
                }
            }
        }
    }
}

proof fn lemma_find_unique(s: Seq<ScriptEntry>, i: int)
    requires
        ids_unique(s),
        0 <= i < s.len(),
    ensures
        find(s, s[i].id@) == i,
{
    lemma_find(s, s[i].id@);
}

proof fn lemma_added(s: Seq<ScriptEntry>, e: ScriptEntry)
    requires
        ids_unique(s),
    ensures
        ids_unique(added(s, e)),
        find(added(s, e), e.id@) >= 0,
        added(s, e)[find(added(s, e), e.id@)] == e,
        added(s, e).len() == s.len() + (if find(s, e.id@) >= 0 { 0int } else { 1int }),
{
    lemma_find(s, e.id@);
    let r = added(s, e);
    if find(s, e.id@) >= 0 {
        lemma_find_unique(r, find(s, e.id@));
    } else {
        lemma_find_unique(r, s.len() as int);
    }
}

/// Registry of scripts, ordered by first registration.
pub struct ScriptRegistry {
    entries: Vec<ScriptEntry>,
}

impl View for ScriptRegistry {
    type V = Seq<ScriptEntry>;

    closed spec fn view(&self) -> Seq<ScriptEntry> {
        self.entries@
    }
}

impl ScriptRegistry {
    /// The registry's invariant: ids are unique.
    pub open spec fn wf(&self) -> bool {
        ids_unique(self@)
    }

    /// An empty registry.
    pub fn new() -> (r: Self)
        ensures
            r.wf(),
            r@ == Seq::<ScriptEntry>::empty(),
    {
        ScriptRegistry { entries: Vec::new() }
    }

    /// Number of registered scripts.
    pub fn len(&self) -> (r: usize)
        ensures
            r == self@.len(),
    {
        self.entries.len()
    }

    /// Whether no script is registered.
    pub fn is_empty(&self) -> (r: bool)
        ensures
            r == (self@.len() == 0),
    {
        self.entries.len() == 0
    }

    fn position(&self, id: &str) -> (r: Option<usize>)
        ensures
            r matches Some(i) ==> i == find(self@, id@) && i < self@.len(),
            r is None ==> find(self@, id@) < 0,
    {
        let mut i: usize = 0;
        while i < self.entries.len()
            invariant
                i <= self.entries@.len(),
                forall|j: int| 0 <= j < i ==> self.entries@[j].id@ != id@,
            decreases self.entries@.len() - i,
        {
            if crate::json::same_text(self.entries[i].id.as_str(), id) {
                proof {
                    lemma_find(self@, id@);
                }
                return Some(i);
            }
            i = i + 1;
        }
        proof {
            lemma_find(self@, id@);
        }
        None
    }

    /// Registers `entry`, replacing the entry with the same id in its place.
    pub fn add(&mut self, entry: ScriptEntry)
        requires
            old(self).wf(),
        ensures
            final(self).wf(),
            final(self)@ == added(old(self)@, entry),
    {
        proof {
            lemma_added(self@, entry);
        }
        match self.position(entry.id.as_str()) {
            Some(i) => {
                self.entries.set(i, entry);
            },
            None => {
                self.entries.push(entry);
            },
        }
    }

    /// The entry registered under `id`.
    pub fn get(&self, id: &str) -> (r: Option<&ScriptEntry>)
        ensures
            find(self@, id@) >= 0 ==> r == Some(&self@[find(self@, id@)]),
            find(self@, id@) < 0 ==> r is None,
    {
        match self.position(id) {
            Some(i) => Some(&self.entries[i]),
            None => None,
        }
    }

    /// Removes the entry registered under `id` and returns it.
    pub fn remove(&mut self, id: &str) -> (r: Option<ScriptEntry>)
        requires
            old(self).wf(),
        ensures
            final(self).wf(),
            find(old(self)@, id@) >= 0 ==> r == Some(old(self)@[find(old(self)@, id@)])
                && final(self)@ == old(self)@.remove(find(old(self)@, id@)),
            find(old(self)@, id@) < 0 ==> r is None && final(self)@ == old(self)@,
    {
        match self.position(id) {
            Some(i) => {
                let e = self.entries.remove(i);
                assert(ids_unique(self@)) by {
                    assert forall|a: int, b: int| 0 <= a < b < self@.len() implies self@[a].id@ != self@[b].id@ by {
                        let oa = if a < i { a } else { a + 1 };
                        let ob = if b < i { b } else { b + 1 };
                        assert(self@[a] == old(self)@[oa]);
                        assert(self@[b] == old(self)@[ob]);
                    }
                }
                Some(e)
            },
            None => None,
        }
    }

    /// Removes every entry and reports how many there were.
    pub fn clear(&mut self) -> (r: usize)
        ensures
            final(self).wf(),
            r == old(self)@.len(),
            final(self)@ == Seq::<ScriptEntry>::empty(),
    {
        let n = self.entries.len();
        self.entries.clear();
        n
    }

    /// A copy of every entry, in registry order.
    pub fn get_all(&self) -> (r: Vec<ScriptEntry>)
        ensures
            r@ == self@,
    {
        let mut out: Vec<ScriptEntry> = Vec::new();
        let mut i: usize = 0;
        while i < self.entries.len()
            invariant
                i <= self.entries@.len(),
                out@ == self.entries@.subrange(0, i as int),
            decreases self.entries@.len() - i,
        {
            out.push(self.entries[i].duplicate());
            assert(out@ =~= self.entries@.subrange(0, i + 1));
            i = i + 1;
        }
        assert(out@ =~= self.entries@);
        out
    }
}

/// Adding an entry and then another with the same id leaves exactly one entry
/// with that id, and it is the second one; the number of entries is as after
/// the first addition.
pub proof fn lemma_readd_replaces(s: Seq<ScriptEntry>, a: ScriptEntry, b: ScriptEntry)
    requires
        ids_unique(s),
        a.id@ == b.id@,
    ensures
        ids_unique(added(added(s, a), b)),
        added(added(s, a), b).len() == added(s, a).len(),
        added(added(s, a), b)[find(added(added(s, a), b), b.id@)] == b,
        forall|i: int| 0 <= i < added(added(s, a), b).len() && added(added(s, a), b)[i].id@ == b.id@
            ==> i == find(added(added(s, a), b), b.id@),
{
    lemma_added(s, a);
    lemma_added(added(s, a), b);
    let r = added(added(s, a), b);
    assert forall|i: int| 0 <= i < r.len() && r[i].id@ == b.id@ implies i == find(r, b.id@) by {
        lemma_find_unique(r, i);
    }
}

/// On an empty registry, adding an entry and then another with the same id
/// leaves the second one alone.
pub proof fn lemma_readd_on_empty(a: ScriptEntry, b: ScriptEntry)
    requires
        a.id@ == b.id@,
    ensures
        added(added(Seq::empty(), a), b) == seq![b],
{
    let s1 = added(Seq::<ScriptEntry>::empty(), a);
    assert(s1 =~= seq![a]);
    assert(s1.drop_last() =~= Seq::<ScriptEntry>::empty());
    assert(find(s1, b.id@) == 0);
    assert(s1.update(0, b) =~= seq![b]);
}

/// Adding `n` entries with pairwise different ids to an empty registry gives
/// `n` entries; `clear` then reports `n`.
pub proof fn lemma_distinct_adds_count(es: Seq<ScriptEntry>)
    requires
        ids_unique(es),
    ensures
        added_all(Seq::empty(), es) == es,
        added_all(Seq::empty(), es).len() == es.len(),
    decreases es.len(),
{
    if es.len() > 0 {
        let init = es.drop_last();
        assert(ids_unique(init));
        lemma_distinct_adds_count(init);
        lemma_find(init, es.last().id@);
        assert(find(init, es.last().id@) < 0) by {
            if find(init, es.last().id@) >= 0 {
                assert(es[find(init, es.last().id@)].id@ == es[es.len() - 1].id@);
            }
        }
        assert(init.push(es.last()) =~= es);
    }
}

} // verus!
