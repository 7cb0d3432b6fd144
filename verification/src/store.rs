use vstd::prelude::*;

use crate::metrics::{can_update, fresh_metrics, updated_metrics, FunctionMetrics, MetricsView};

verus! {

/// Whether no two pairs of `s` share a key.
pub open spec fn distinct_keys<K, V>(s: Seq<(K, V)>) -> bool {
    forall|i: int, j: int| 0 <= i < s.len() && 0 <= j < s.len() && i != j ==> s[i].0 != s[j].0
}

/// Whether some pair of `s` has the key `k`.
pub open spec fn has_key<K, V>(s: Seq<(K, V)>, k: K) -> bool {
    exists|i: int| 0 <= i < s.len() && s[i].0 == k
}

/// The map that a list of pairs with distinct keys stands for.
pub open spec fn pairs_map<K, V>(s: Seq<(K, V)>) -> Map<K, V> {
    Map::new(
        |k: K| has_key(s, k),
        |k: K| s[choose|i: int| 0 <= i < s.len() && s[i].0 == k].1,
    )
}

/// The map that inserting the pairs of `s` one after another builds: a
/// later pair with the same key replaces an earlier one.
pub open spec fn inserted_map<K, V>(s: Seq<(K, V)>) -> Map<K, V>
    decreases s.len(),
{
    if s.len() == 0 {
        Map::empty()
    } else {
        inserted_map(s.drop_last()).insert(s.last().0, s.last().1)
    }
}

proof fn lemma_pairs_map_at<K, V>(s: Seq<(K, V)>, i: int)
    requires
        distinct_keys(s),
        0 <= i < s.len(),
    ensures
        pairs_map(s).contains_key(s[i].0),
        pairs_map(s)[s[i].0] == s[i].1,
{
    assert(has_key(s, s[i].0));
    let j = choose|j: int| 0 <= j < s.len() && s[j].0 == s[i].0;
    assert(j == i);
}

proof fn lemma_pairs_map_set<K, V>(s: Seq<(K, V)>, i: int, v: V)
    requires
        distinct_keys(s),
        0 <= i < s.len(),
    ensures
        distinct_keys(s.update(i, (s[i].0, v))),
        pairs_map(s.update(i, (s[i].0, v))) == pairs_map(s).insert(s[i].0, v),
{
    let t = s.update(i, (s[i].0, v));
    assert(distinct_keys(t)) by {
        assert forall|a: int, b: int| 0 <= a < t.len() && 0 <= b < t.len() && a != b implies t[a].0 != t[b].0 by {
            assert(t[a].0 == s[a].0 && t[b].0 == s[b].0);
        }
    }
    let m = pairs_map(s).insert(s[i].0, v);
    assert forall|k: K| #[trigger] pairs_map(t).contains_key(k) <==> m.contains_key(k) by {
        if has_key(t, k) {
            let a = choose|a: int| 0 <= a < t.len() && t[a].0 == k;
            assert(s[a].0 == k);
        }
        if has_key(s, k) {
            let a = choose|a: int| 0 <= a < s.len() && s[a].0 == k;
            assert(t[a].0 == k);
        }
        if k == s[i].0 {
            assert(t[i].0 == k);
        }
    }
    assert forall|k: K| #[trigger] pairs_map(t).contains_key(k) implies pairs_map(t)[k] == m[k] by {
        let a = choose|a: int| 0 <= a < t.len() && t[a].0 == k;
        lemma_pairs_map_at(t, a);
        if a != i {
            lemma_pairs_map_at(s, a);
        }
    }
    assert(pairs_map(t) =~= m);
}

proof fn lemma_pairs_map_push<K, V>(s: Seq<(K, V)>, k: K, v: V)
    requires
        distinct_keys(s),
        !has_key(s, k),
    ensures
        distinct_keys(s.push((k, v))),
        pairs_map(s.push((k, v))) == pairs_map(s).insert(k, v),
{
    let t = s.push((k, v));
    assert(distinct_keys(t)) by {
        assert forall|a: int, b: int| 0 <= a < t.len() && 0 <= b < t.len() && a != b implies t[a].0 != t[b].0 by {
            if a < s.len() && b < s.len() {
                assert(t[a] == s[a] && t[b] == s[b]);
            } else if a < s.len() {
                assert(t[a] == s[a]);
            } else if b < s.len() {
                assert(t[b] == s[b]);
            }
        }
    }
    let m = pairs_map(s).insert(k, v);
    assert forall|x: K| #[trigger] pairs_map(t).contains_key(x) <==> m.contains_key(x) by {
        if has_key(t, x) {
            let a = choose|a: int| 0 <= a < t.len() && t[a].0 == x;
            if a < s.len() {
                assert(s[a].0 == x);
            }
        }
        if has_key(s, x) {
            let a = choose|a: int| 0 <= a < s.len() && s[a].0 == x;
            assert(t[a].0 == x);
        }
        if x == k {
            assert(t[s.len() as int].0 == k);
        }
    }
    assert forall|x: K| #[trigger] pairs_map(t).contains_key(x) implies pairs_map(t)[x] == m[x] by {
        let a = choose|a: int| 0 <= a < t.len() && t[a].0 == x;
        lemma_pairs_map_at(t, a);
        if a < s.len() {
            assert(t[a] == s[a]);
            lemma_pairs_map_at(s, a);
        }
    }
    assert(pairs_map(t) =~= m);
}

/// Writing out the pairs of a store and inserting them again, one after
/// another, gives back the same metrics: what is saved reads back unchanged.
pub proof fn law_pairs_reload<K, V>(s: Seq<(K, V)>)
    requires
        distinct_keys(s),
    ensures
        inserted_map(s) == pairs_map(s),
    decreases s.len(),
{
    if s.len() == 0 {
        assert(pairs_map(s) =~= Map::<K, V>::empty());
    } else {
        let init = s.drop_last();
        let last = s.last();
        assert(distinct_keys(init));
        assert(!has_key(init, last.0)) by {
            if has_key(init, last.0) {
                let a = choose|a: int| 0 <= a < init.len() && init[a].0 == last.0;
                assert(s[a].0 == s[s.len() - 1].0);
            }
        }
        law_pairs_reload(init);
        lemma_pairs_map_push(init, last.0, last.1);
        assert(init.push((last.0, last.1)) =~= s);
    }
}

/// The metrics of a run of `name` that used `memory_bytes` and took
/// `time_ms`, added to `m`: a function seen for the first time starts from
/// fresh metrics, and no other function's metrics change.
pub open spec fn record_spec(
    m: Map<Seq<char>, MetricsView>,
    name: Seq<char>,
    memory_bytes: u64,
    time_ms: u64,
) -> Map<Seq<char>, MetricsView> {
    let prior = if m.contains_key(name) { m[name] } else { fresh_metrics(name) };
    m.insert(name, updated_metrics(prior, memory_bytes, time_ms))
}

/// Whether a run of `name` taking `time_ms` can be recorded in `m` without a
/// counter leaving the range of `u64`.
pub open spec fn can_record(m: Map<Seq<char>, MetricsView>, name: Seq<char>, time_ms: u64) -> bool {
    let prior = if m.contains_key(name) { m[name] } else { fresh_metrics(name) };
    can_update(prior, time_ms)
}

/// The metrics that recording the runs `events` (name, memory used, time
/// taken), one after another, builds from an empty store.
pub open spec fn replay(events: Seq<(Seq<char>, u64, u64)>) -> Map<Seq<char>, MetricsView>
    decreases events.len(),
{
    if events.len() == 0 {
        Map::empty()
    } else {
        let e = events.last();
        record_spec(replay(events.drop_last()), e.0, e.1, e.2)
    }
}

/// How many of the runs `events` are runs of `name`.
pub open spec fn runs_of(events: Seq<(Seq<char>, u64, u64)>, name: Seq<char>) -> nat
    decreases events.len(),
{
    if events.len() == 0 {
        0
    } else {
        runs_of(events.drop_last(), name) + if events.last().0 == name { 1nat } else { 0nat }
    }
}

/// The time that the runs of `name` among `events` took together.
pub open spec fn time_of(events: Seq<(Seq<char>, u64, u64)>, name: Seq<char>) -> nat
    decreases events.len(),
{
    if events.len() == 0 {
        0
    } else {
        time_of(events.drop_last(), name) + if events.last().0 == name { events.last().2 as nat } else { 0nat }
    }
}

/// The memory that the last run of `name` among `events` used.
pub open spec fn last_memory_of(events: Seq<(Seq<char>, u64, u64)>, name: Seq<char>) -> u64
    decreases events.len(),
{
    if events.len() == 0 {
        0
    } else if events.last().0 == name {
        events.last().1
    } else {
        last_memory_of(events.drop_last(), name)
    }
}

/// The metrics of a function, after any sequence of recorded runs, count
/// exactly its runs, add up exactly their times and keep the memory of the
/// last one; a function that never ran has no metrics. (The counters stay
/// within `u64`.)
pub proof fn law_metrics_accumulate(events: Seq<(Seq<char>, u64, u64)>, name: Seq<char>)
    requires
        time_of(events, name) <= u64::MAX,
        runs_of(events, name) <= u64::MAX,
    ensures
        replay(events).contains_key(name) <==> runs_of(events, name) > 0,
        runs_of(events, name) > 0 ==> replay(events)[name] == (MetricsView {
            name: name,
            memory_used_bytes: last_memory_of(events, name),
            total_execution_time_ms: time_of(events, name) as u64,
            execution_count: runs_of(events, name) as u64,
        }),
    decreases events.len(),
{
    if events.len() > 0 {
        let prefix = events.drop_last();
        let e = events.last();
        law_metrics_accumulate(prefix, name);
        lemma_no_runs_no_time(prefix, name);
        if e.0 == name {
            let prior = replay(prefix);
            assert(replay(events) == record_spec(prior, e.0, e.1, e.2));
            assert(replay(events)[name] == updated_metrics(
                if prior.contains_key(name) { prior[name] } else { fresh_metrics(name) },
                e.1,
                e.2,
            ));
        }
    }
}

proof fn lemma_no_runs_no_time(events: Seq<(Seq<char>, u64, u64)>, name: Seq<char>)
    ensures
        runs_of(events, name) == 0 ==> time_of(events, name) == 0,
    decreases events.len(),
{
    if events.len() > 0 {
        lemma_no_runs_no_time(events.drop_last(), name);
    }
}

/// After a run of `name` is recorded, its metrics hold that run: the memory
/// it used, its time added to the earlier total and one more run than before
/// (starting from none for a function seen for the first time).
pub proof fn law_record_then_lookup(
    m: Map<Seq<char>, MetricsView>,
    name: Seq<char>,
    memory_bytes: u64,
    time_ms: u64,
)
    requires
        can_record(m, name, time_ms),
    ensures
        record_spec(m, name, memory_bytes, time_ms).contains_key(name),
        record_spec(m, name, memory_bytes, time_ms)[name].memory_used_bytes == memory_bytes,
        record_spec(m, name, memory_bytes, time_ms)[name].total_execution_time_ms == time_ms + if m.contains_key(name) {
            m[name].total_execution_time_ms as int
        } else {
            0
        },
        record_spec(m, name, memory_bytes, time_ms)[name].execution_count == 1 + if m.contains_key(name) {
            m[name].execution_count as int
        } else {
            0
        },
{
}

/// Whether every function's metrics carry the function's own name.
pub open spec fn names_match_keys(m: Map<Seq<char>, MetricsView>) -> bool {
    forall|k: Seq<char>| #[trigger] m.contains_key(k) ==> m[k].name == k
}

/// Recording a run keeps every function's metrics under its own name: a
/// function seen for the first time gets its name, the others keep theirs.
pub proof fn law_record_keeps_names(
    m: Map<Seq<char>, MetricsView>,
    name: Seq<char>,
    memory_bytes: u64,
    time_ms: u64,
)
    requires
        names_match_keys(m),
    ensures
        names_match_keys(record_spec(m, name, memory_bytes, time_ms)),
{
}

/// Recording a run of one function leaves the metrics of every other
/// function as they were.
pub proof fn law_record_leaves_others(
    m: Map<Seq<char>, MetricsView>,
    name: Seq<char>,
    memory_bytes: u64,
    time_ms: u64,
    other: Seq<char>,
)
    requires
        other != name,
    ensures
        record_spec(m, name, memory_bytes, time_ms).contains_key(other) == m.contains_key(other),
        m.contains_key(other) ==> record_spec(m, name, memory_bytes, time_ms)[other] == m[other],
{
}

/// The metrics of all functions, keyed by function name.
pub struct MetricsStore {
    entries: Vec<(String, FunctionMetrics)>,
}

/// The key and metrics values of the pairs of a store.
pub open spec fn entry_views(entries: Seq<(String, FunctionMetrics)>) -> Seq<(Seq<char>, MetricsView)> {
    entries.map_values(|e: (String, FunctionMetrics)| (e.0@, e.1@))
}

impl View for MetricsStore {
    type V = Map<Seq<char>, MetricsView>;

    closed spec fn view(&self) -> Map<Seq<char>, MetricsView> {
        pairs_map(entry_views(self.entries@))
    }
}

impl MetricsStore {
    #[verifier::type_invariant]
    spec fn keys_distinct(&self) -> bool {
        distinct_keys(entry_views(self.entries@))
    }

    /// A store that holds no metrics.
    pub fn new() -> (s: Self)
        ensures
            s@ == Map::<Seq<char>, MetricsView>::empty(),
    {
        let s = MetricsStore { entries: Vec::new() };
        assert(s@ =~= Map::<Seq<char>, MetricsView>::empty());
        s
    }

    /// The number of functions with metrics.
    pub fn len(&self) -> (n: usize)
        ensures
            n == self@.dom().len(),
    {
        proof {
            use_type_invariant(self);
            self.lemma_dom_len();
        }
        self.entries.len()
    }

    proof fn lemma_dom_len(&self)
        requires
            distinct_keys(entry_views(self.entries@)),
        ensures
            self@.dom().len() == self.entries@.len(),
    {
        let s = entry_views(self.entries@);
        let keys = s.map_values(|p: (Seq<char>, MetricsView)| p.0);
        assert(keys.no_duplicates()) by {
            assert forall|i: int, j: int| 0 <= i < keys.len() && 0 <= j < keys.len() && i != j implies keys[i] != keys[j] by {
                assert(keys[i] == s[i].0 && keys[j] == s[j].0);
            }
        }
        assert(self@.dom() =~= keys.to_set()) by {
            assert forall|k: Seq<char>| self@.dom().contains(k) <==> keys.to_set().contains(k) by {
                if has_key(s, k) {
                    let a = choose|a: int| 0 <= a < s.len() && s[a].0 == k;
                    assert(keys[a] == k);
                }
                if keys.contains(k) {
                    let a = choose|a: int| 0 <= a < keys.len() && keys[a] == k;
                    assert(s[a].0 == k);
                }
            }
        }
        keys.unique_seq_to_set();
    }

    /// The position of the pair with key `name`, if any.
    fn find(&self, name: &String) -> (r: Option<usize>)
        ensures
            match r {
                Some(i) => i < self.entries@.len() && self.entries@[i as int].0@ == name@,
                None => !has_key(entry_views(self.entries@), name@),
            },
    {
        let mut i: usize = 0;
        while i < self.entries.len()
            invariant
                i <= self.entries@.len(),
                forall|j: int| 0 <= j < i ==> self.entries@[j].0@ != name@,
            decreases self.entries@.len() - i,
        {
            if self.entries[i].0 == *name {
                return Some(i);
            }
            i = i + 1;
        }
        proof {
            let s = entry_views(self.entries@);
            if has_key(s, name@) {
                let a = choose|a: int| 0 <= a < s.len() && s[a].0 == name@;
                assert(self.entries@[a].0@ == name@);
            }
        }
        None
    }

    /// The metrics of the function `name`, if it has any.
    pub fn get(&self, name: &String) -> (r: Option<&FunctionMetrics>)
        ensures
            match r {
                Some(m) => self@.contains_key(name@) && m@ == self@[name@],
                None => !self@.contains_key(name@),
            },
    {
        proof { use_type_invariant(self); }
        match self.find(name) {
            Some(i) => {
                proof {
                    lemma_pairs_map_at(entry_views(self.entries@), i as int);
                }
                Some(&self.entries[i].1)
            },
            None => None,
        }
    }

    /// Sets the metrics kept under `name`, replacing any earlier ones.
    pub fn insert(&mut self, name: String, metrics: FunctionMetrics)
        ensures
            final(self)@ == old(self)@.insert(name@, metrics@),
    {
        proof { use_type_invariant(&*self); }
        let ghost before = entry_views(self.entries@);
        let found = self.find(&name);
        let mut entries: Vec<(String, FunctionMetrics)> = Vec::new();
        std::mem::swap(&mut entries, &mut self.entries);
        match found {
            Some(i) => {
                proof { lemma_pairs_map_set(before, i as int, metrics@); }
                entries.set(i, (name, metrics));
                assert(entry_views(entries@) =~= before.update(i as int, (before[i as int].0, metrics@)));
            },
            None => {
                proof { lemma_pairs_map_push(before, name@, metrics@); }
                entries.push((name, metrics));
                assert(entry_views(entries@) =~= before.push((name@, metrics@)));
            },
        }
        std::mem::swap(&mut entries, &mut self.entries);
    }

    /// Builds the store that inserting `pairs` in order gives.
    pub fn from_pairs(pairs: Vec<(String, FunctionMetrics)>) -> (s: Self)
        ensures
            s@ == inserted_map(entry_views(pairs@)),
    {
        let mut s = MetricsStore::new();
        let ghost all = entry_views(pairs@);
        let mut i: usize = 0;
        assert(all.take(0) =~= Seq::<(Seq<char>, MetricsView)>::empty());
        while i < pairs.len()
            invariant
                i <= pairs@.len(),
                all == entry_views(pairs@),
                s@ == inserted_map(all.take(i as int)),
            decreases pairs@.len() - i,
        {
            let name = pairs[i].0.clone();
            let metrics = pairs[i].1.duplicate();
            s.insert(name, metrics);
            assert(all.take(i + 1).drop_last() =~= all.take(i as int));
            i = i + 1;
        }
        assert(all.take(pairs@.len() as int) =~= all);
        s
    }

    /// The pairs of function name and metrics that the store holds, each
    /// name once.
    pub fn pairs(&self) -> (r: &Vec<(String, FunctionMetrics)>)
        ensures
            distinct_keys(entry_views(r@)),
            pairs_map(entry_views(r@)) == self@,
    {
        proof { use_type_invariant(self); }
        &self.entries
    }

    /// Records a run of `name` that used `memory_bytes` and took
    /// `execution_time_ms`.
    pub fn record_execution(&mut self, name: String, memory_bytes: u64, execution_time_ms: u64)
        requires
            can_record(old(self)@, name@, execution_time_ms),
        ensures
            final(self)@ == record_spec(old(self)@, name@, memory_bytes, execution_time_ms),
    {
        proof { use_type_invariant(&*self); }
        let mut metrics = match self.get(&name) {
            Some(m) => m.duplicate(),
            None => FunctionMetrics::new(name.clone()),
        };
        metrics.update(memory_bytes, execution_time_ms);
        self.insert(name, metrics);
    }

    /// Whether a run of `name` taking `execution_time_ms` can be recorded
    /// without a counter leaving the range of `u64`.
    pub fn can_record_execution(&self, name: &String, execution_time_ms: u64) -> (ok: bool)
        ensures
            ok == can_record(self@, name@, execution_time_ms),
    {
        match self.get(name) {
            Some(m) => {
                m.total_execution_time_ms <= u64::MAX - execution_time_ms
                    && m.execution_count < u64::MAX
            },
            None => execution_time_ms <= u64::MAX && 0 < u64::MAX,
        }
    }
}

} // verus!
