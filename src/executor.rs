//! Correlation of in-flight script executions with their completion slots.
use vstd::prelude::*;
use crate::json::Json;

verus! {

/// Length of an execution id as drawn.
pub const ID_LEN: usize = 32;

/// Lower-case hexadecimal digits.
pub open spec fn is_hex_lower(c: char) -> bool {
    ('0' <= c && c <= '9') || ('a' <= c && c <= 'f')
}

/// Relies on `uuid::Uuid::new_v4` and its `simple` form: a random id written
/// as 32 lower-case hexadecimal digits.
#[verifier::external_body]
fn random_id() -> (r: String)
    ensures
        r@.len() == ID_LEN,
        forall|i: int| 0 <= i < r@.len() ==> is_hex_lower(#[trigger] r@[i]),
{
    uuid::Uuid::new_v4().simple().to_string()
}

/// A fresh random id of `ID_LEN` lower-case hexadecimal digits.
pub fn fresh_id() -> (r: String)
    ensures
        r@.len() == ID_LEN,
        forall|i: int| 0 <= i < r@.len() ==> is_hex_lower(#[trigger] r@[i]),
{
    random_id()
}

/// How an execution ended, as reported back by the executed code.
pub enum ExecOutcome {
    /// It completed, with the value it produced, if any.
    Success(Option<Json>),
    /// It failed with this message.
    Failure(String),
}

/// What a report of `success` with `data` and `error` delivers; a failure
/// without a message is reported as `Unknown error`.
pub open spec fn outcome_of(success: bool, data: Option<Json>, error: Option<String>, r: ExecOutcome) -> bool {
    if success {
        r == ExecOutcome::Success(data)
    } else {
        match r {
            ExecOutcome::Failure(m) => match error {
                Some(e) => m == e,
                None => m@ == "Unknown error"@,
            },
            _ => false,
        }
    }
}

/// Builds the outcome of a report.
pub fn make_outcome(success: bool, data: Option<Json>, error: Option<String>) -> (r: ExecOutcome)
    ensures
        outcome_of(success, data, error, r),
{
    if success {
        ExecOutcome::Success(data)
    } else {
        match error {
            Some(e) => ExecOutcome::Failure(e),
            None => ExecOutcome::Failure(String::from_str("Unknown error")),
        }
    }
}

/// The pending entries as a map from id to slot.
pub open spec fn to_map<S>(s: Seq<(String, S)>) -> Map<Seq<char>, S>
    decreases s.len(),
{
    if s.len() == 0 {
        Map::empty()
    } else {
        to_map(s.drop_last()).insert(s.last().0@, s.last().1)
    }
}

/// No two entries share an id.
pub open spec fn keys_unique<S>(s: Seq<(String, S)>) -> bool {
    forall|i: int, j: int| 0 <= i < j < s.len() ==> s[i].0@ != s[j].0@
}

proof fn lemma_to_map_keys<S>(s: Seq<(String, S)>, k: Seq<char>)
    ensures
        to_map(s).contains_key(k) <==> exists|i: int| 0 <= i < s.len() && #[trigger] s[i].0@ == k,
    decreases s.len(),
{
    if s.len() > 0 {
        let init = s.drop_last();
        lemma_to_map_keys(init, k);
        if to_map(init).contains_key(k) {
            let i = choose|i: int| 0 <= i < init.len() && #[trigger] init[i].0@ == k;
            assert(s[i] == init[i]);
        }
        if exists|i: int| 0 <= i < s.len() && #[trigger] s[i].0@ == k {
            let i = choose|i: int| 0 <= i < s.len() && #[trigger] s[i].0@ == k;
            if i < init.len() {
                assert(init[i] == s[i]);
            }
        }
    }
}

proof fn lemma_to_map_index<S>(s: Seq<(String, S)>, i: int)
    requires
        keys_unique(s),
        0 <= i < s.len(),
    ensures
        to_map(s).contains_key(s[i].0@),
        to_map(s)[s[i].0@] == s[i].1,
    decreases s.len(),
{
    let init = s.drop_last();
    if i < s.len() - 1 {
        assert(init[i] == s[i]);
        lemma_to_map_index(init, i);
    }
}

proof fn lemma_to_map_remove<S>(s: Seq<(String, S)>, i: int)
    requires
        keys_unique(s),
        0 <= i < s.len(),
    ensures
        keys_unique(s.remove(i)),
        to_map(s.remove(i)) == to_map(s).remove(s[i].0@),
    decreases s.len(),
{
    let r = s.remove(i);
    assert forall|a: int, b: int| 0 <= a < b < r.len() implies r[a].0@ != r[b].0@ by {
        let oa = if a < i { a } else { a + 1 };
        let ob = if b < i { b } else { b + 1 };
        assert(r[a] == s[oa]);
        assert(r[b] == s[ob]);
    }
    let init = s.drop_last();
    if i == s.len() - 1 {
        assert(r =~= init);
        lemma_to_map_keys(init, s[i].0@);
        assert(to_map(init) =~= to_map(s).remove(s[i].0@));
    } else {
        assert(keys_unique(init));
        lemma_to_map_remove(init, i);
        assert(r =~= init.remove(i).push(s.last()));
        assert(r.drop_last() =~= init.remove(i));
        assert(to_map(r) =~= to_map(s).remove(s[i].0@));
    }
}

/// Length of the longest id in `s`.
pub open spec fn longest<S>(s: Seq<(String, S)>) -> nat
    decreases s.len(),
{
    if s.len() == 0 {
        0
    } else {
        let m = longest(s.drop_last());
        if s.last().0@.len() > m { s.last().0@.len() } else { m }
    }
}

proof fn lemma_longest<S>(s: Seq<(String, S)>, i: int)
    requires
        0 <= i < s.len(),
    ensures
        s[i].0@.len() <= longest(s),
    decreases s.len(),
{
    if i < s.len() - 1 {
        assert(s.drop_last()[i] == s[i]);
        lemma_longest(s.drop_last(), i);
    }
}

/// In-flight executions keyed by id, each with the slot its result goes to.
pub struct ScriptExecutor<S> {
    pending: Vec<(String, S)>,
}

impl<S> View for ScriptExecutor<S> {
    type V = Map<Seq<char>, S>;

    closed spec fn view(&self) -> Map<Seq<char>, S> {
        to_map(self.pending@)
    }
}

impl<S> ScriptExecutor<S> {
    /// The store's invariant: one entry per id.
    pub closed spec fn wf(&self) -> bool {
        keys_unique(self.pending@)
    }

    /// An empty store.
    pub fn new() -> (r: Self)
        ensures
            r.wf(),
            r@ == Map::<Seq<char>, S>::empty(),
    {
        ScriptExecutor { pending: Vec::new() }
    }

    /// Number of executions in flight.
    pub fn len(&self) -> (r: usize)
        requires
            self.wf(),
        ensures
            r == self@.len(),
    {
        proof {
            self.lemma_len();
        }
        self.pending.len()
    }

    proof fn lemma_len(&self)
        requires
            self.wf(),
        ensures
            self@.dom().finite(),
            self@.len() == self.pending@.len(),
        decreases self.pending@.len(),
    {
        lemma_len_of(self.pending@);
    }

    fn position(&self, id: &str) -> (r: Option<usize>)
        requires
            self.wf(),
        ensures
            r matches Some(i) ==> i < self.pending@.len() && self.pending@[i as int].0@ == id@,
            r is None ==> !self@.contains_key(id@),
    {
        let mut i: usize = 0;
        while i < self.pending.len()
            invariant
                i <= self.pending@.len(),
                forall|j: int| 0 <= j < i ==> self.pending@[j].0@ != id@,
            decreases self.pending@.len() - i,
        {
            if crate::json::same_text(self.pending[i].0.as_str(), id) {
                return Some(i);
            }
            i = i + 1;
        }
        proof {
            lemma_to_map_keys(self.pending@, id@);
        }
        None
    }

    /// Whether `id` is in flight.
    pub fn contains(&self, id: &str) -> (r: bool)
        requires
            self.wf(),
        ensures
            r == self@.contains_key(id@),
    {
        match self.position(id) {
            Some(i) => {
                proof {
                    lemma_to_map_keys(self.pending@, id@);
                }
                true
            },
            None => false,
        }
    }

    /// Tracks a new execution whose result goes to `slot`, under a fresh id
    /// that no execution in flight has, and returns that id.
    pub fn begin(&mut self, slot: S) -> (id: String)
        requires
            old(self).wf(),
        ensures
            final(self).wf(),
            !old(self)@.contains_key(id@),
            final(self)@ == old(self)@.insert(id@, slot),
            id@.len() >= ID_LEN,
    {
        let mut id = random_id();
        let ghost bound = longest(self.pending@);
        while self.contains(id.as_str())
            invariant
                self.wf(),
                bound == longest(self.pending@),
                id@.len() >= ID_LEN,
            decreases bound + 1 - id@.len(),
        {
            proof {
                lemma_to_map_keys(self.pending@, id@);
                let i = choose|i: int| 0 <= i < self.pending@.len() && #[trigger] self.pending@[i].0@ == id@;
                lemma_longest(self.pending@, i);
            }
            crate::text::push_char(&mut id, '0');
        }
        let ghost before = self.pending@;
        proof {
            lemma_to_map_keys(before, id@);
        }
        self.pending.push((id.clone(), slot));
        assert(self.pending@.drop_last() =~= before);
        assert forall|a: int, b: int| 0 <= a < b < self.pending@.len() implies self.pending@[a].0@ != self.pending@[b].0@ by {
            if b == self.pending@.len() - 1 {
                assert(self.pending@[a] == before[a]);
            } else {
                assert(self.pending@[a] == before[a]);
                assert(self.pending@[b] == before[b]);
            }
        }
        id
    }

    /// Stops tracking `id` and hands out its slot; an id that is not in flight
    /// (never begun, already resolved or expired) leaves the store unchanged.
    pub fn resolve(&mut self, id: &str) -> (r: Option<S>)
        requires
            old(self).wf(),
        ensures
            final(self).wf(),
            old(self)@.contains_key(id@) ==> r == Some(old(self)@[id@]),
            !old(self)@.contains_key(id@) ==> r is None,
            final(self)@ == old(self)@.remove(id@),
    {
        match self.position(id) {
            Some(i) => {
                proof {
                    lemma_to_map_index(self.pending@, i as int);
                    lemma_to_map_remove(self.pending@, i as int);
                }
                let (_, slot) = self.pending.remove(i);
                Some(slot)
            },
            None => {
                assert(self@.remove(id@) =~= self@);
                None
            },
        }
    }

    /// Delivers a report for `id`: where `id` is in flight, stops tracking it
    /// and returns its slot with the outcome to send through it.
    pub fn handle_result(&mut self, id: &str, success: bool, data: Option<Json>, error: Option<String>) -> (r: Option<(S, ExecOutcome)>)
        requires
            old(self).wf(),
        ensures
            final(self).wf(),
            final(self)@ == old(self)@.remove(id@),
            !old(self)@.contains_key(id@) ==> r is None,
            old(self)@.contains_key(id@) ==> (r matches Some((slot, outcome))
                && slot == old(self)@[id@] && outcome_of(success, data, error, outcome)),
    {
        match self.resolve(id) {
            Some(slot) => Some((slot, make_outcome(success, data, error))),
            None => None,
        }
    }

    /// The timeout path: stops tracking `id` so that a late report is ignored.
    pub fn expire(&mut self, id: &str) -> (r: bool)
        requires
            old(self).wf(),
        ensures
            final(self).wf(),
            r == old(self)@.contains_key(id@),
            final(self)@ == old(self)@.remove(id@),
            !final(self)@.contains_key(id@),
    {
        let slot = self.resolve(id);
        slot.is_some()
    }
}

impl<S> Default for ScriptExecutor<S> {
    fn default() -> (r: Self)
        ensures
            r.wf(),
            r@ == Map::<Seq<char>, S>::empty(),
    {
        ScriptExecutor::new()
    }
}

proof fn lemma_len_of<S>(s: Seq<(String, S)>)
    requires
        keys_unique(s),
    ensures
        to_map(s).dom().finite(),
        to_map(s).len() == s.len(),
    decreases s.len(),
{
    if s.len() > 0 {
        let init = s.drop_last();
        lemma_len_of(init);
        lemma_to_map_keys(init, s.last().0@);
        if to_map(init).contains_key(s.last().0@) {
            let i = choose|i: int| 0 <= i < init.len() && #[trigger] init[i].0@ == s.last().0@;
            assert(s[i] == init[i]);
        }
    }
}

/// The map after inserting each of `ps` in turn.
pub open spec fn inserted_all<S>(m: Map<Seq<char>, S>, ps: Seq<(Seq<char>, S)>) -> Map<Seq<char>, S>
    decreases ps.len(),
{
    if ps.len() == 0 {
        m
    } else {
        inserted_all(m, ps.drop_last()).insert(ps.last().0, ps.last().1)
    }
}

/// Each id of `ps` was absent from the map it was inserted into, as `begin`
/// guarantees for every id it returns.
pub open spec fn each_fresh<S>(m: Map<Seq<char>, S>, ps: Seq<(Seq<char>, S)>) -> bool {
    forall|i: int| 0 <= i < ps.len() ==> !#[trigger] inserted_all(m, ps.subrange(0, i)).contains_key(ps[i].0)
}

proof fn lemma_inserted_contains<S>(m: Map<Seq<char>, S>, ps: Seq<(Seq<char>, S)>, i: int)
    requires
        0 <= i < ps.len(),
    ensures
        inserted_all(m, ps).contains_key(ps[i].0),
    decreases ps.len(),
{
    if i < ps.len() - 1 {
        assert(ps.drop_last()[i] == ps[i]);
        lemma_inserted_contains(m, ps.drop_last(), i);
    }
}

/// Ids handed out by any number of `begin` calls on one store, with
/// nothing resolved in between, are pairwise distinct.
pub proof fn lemma_begin_ids_distinct<S>(m: Map<Seq<char>, S>, ps: Seq<(Seq<char>, S)>)
    requires
        each_fresh(m, ps),
    ensures
        forall|i: int, j: int| 0 <= i < j < ps.len() ==> ps[i].0 != ps[j].0,
{
    assert forall|i: int, j: int| 0 <= i < j < ps.len() implies ps[i].0 != ps[j].0 by {
        let pre = ps.subrange(0, j);
        assert(pre[i] == ps[i]);
        lemma_inserted_contains(m, pre, i);
        assert(!inserted_all(m, ps.subrange(0, j)).contains_key(ps[j].0));
    }
}

/// A report for an id that is not in flight changes nothing and completes
/// nothing.
pub proof fn lemma_unknown_report_ignored<S>(m: Map<Seq<char>, S>, id: Seq<char>)
    requires
        !m.contains_key(id),
    ensures
        m.remove(id) == m,
{
    assert(m.remove(id) =~= m);
}

/// After the timeout path, the id is no longer tracked, and a late report for
/// it is ignored.
pub proof fn lemma_expired_not_tracked<S>(m: Map<Seq<char>, S>, id: Seq<char>)
    ensures
        !m.remove(id).contains_key(id),
        m.remove(id).remove(id) == m.remove(id),
{
    assert(m.remove(id).remove(id) =~= m.remove(id));
}

} // verus!
