//! The registry of inference backends, by name, with the name of the default one.
use vstd::prelude::*;
use crate::model::remote::openai_compat::{ClientView, OpenAICompatClient};

verus! {

/// Backend names with their clients, in registration order.
pub type Entries = Seq<(Seq<char>, ClientView)>;

/// No name occurs twice.
pub open spec fn distinct_names(e: Entries) -> bool {
    forall|i: int, j: int| 0 <= i < e.len() && 0 <= j < e.len() && i != j ==> #[trigger] e[i].0 != #[trigger] e[j].0
}

/// Whether `k` is the name of an entry.
pub open spec fn has_name(e: Entries, k: Seq<char>) -> bool {
    exists|i: int| 0 <= i < e.len() && #[trigger] e[i].0 == k
}

/// The entries as a map from name to settings.
pub open spec fn entry_map(e: Entries) -> Map<Seq<char>, ClientView> {
    Map::new(
        |k: Seq<char>| has_name(e, k),
        |k: Seq<char>| e[choose|i: int| 0 <= i < e.len() && #[trigger] e[i].0 == k].1,
    )
}

/// With distinct names, entry `i` is what the map holds under its name.
pub proof fn lemma_entry_map_at(e: Entries, i: int)
    requires
        distinct_names(e),
        0 <= i < e.len(),
    ensures
        entry_map(e).dom().contains(e[i].0),
        entry_map(e)[e[i].0] == e[i].1,
{
    assert(has_name(e, e[i].0));
    let j = choose|j: int| 0 <= j < e.len() && #[trigger] e[j].0 == e[i].0;
    assert(j == i);
}

/// Appending an entry under a new name inserts it into the map.
pub proof fn lemma_entry_map_push(e: Entries, k: Seq<char>, c: ClientView)
    requires
        distinct_names(e),
        !has_name(e, k),
    ensures
        distinct_names(e.push((k, c))),
        entry_map(e.push((k, c))) == entry_map(e).insert(k, c),
{
    let f = e.push((k, c));
    assert(distinct_names(f));
    assert forall|x: Seq<char>| has_name(f, x) == (has_name(e, x) || x == k) by {
        if has_name(e, x) {
            let i = choose|i: int| 0 <= i < e.len() && #[trigger] e[i].0 == x;
            assert(f[i].0 == x);
        }
        if x == k {
            assert(f[e.len() as int].0 == x);
        }
        if has_name(f, x) && x != k {
            let i = choose|i: int| 0 <= i < f.len() && #[trigger] f[i].0 == x;
            assert(e[i].0 == x);
        }
    }
    assert forall|x: Seq<char>| #[trigger] entry_map(f).dom().contains(x) implies entry_map(f)[x] == entry_map(e).insert(k, c)[x] by {
        let i = choose|i: int| 0 <= i < f.len() && #[trigger] f[i].0 == x;
        lemma_entry_map_at(f, i);
        if i < e.len() {
            lemma_entry_map_at(e, i);
        }
    }
    assert(entry_map(f) =~= entry_map(e).insert(k, c));
}

/// Replacing the settings of entry `i` replaces them in the map.
pub proof fn lemma_entry_map_update(e: Entries, i: int, c: ClientView)
    requires
        distinct_names(e),
        0 <= i < e.len(),
    ensures
        distinct_names(e.update(i, (e[i].0, c))),
        entry_map(e.update(i, (e[i].0, c))) == entry_map(e).insert(e[i].0, c),
{
    let f = e.update(i, (e[i].0, c));
    assert(distinct_names(f));
    assert forall|x: Seq<char>| has_name(f, x) == has_name(e, x) by {
        if has_name(e, x) {
            let j = choose|j: int| 0 <= j < e.len() && #[trigger] e[j].0 == x;
            assert(f[j].0 == x);
        }
        if has_name(f, x) {
            let j = choose|j: int| 0 <= j < f.len() && #[trigger] f[j].0 == x;
            assert(e[j].0 == x);
        }
    }
    lemma_entry_map_at(e, i);
    assert forall|x: Seq<char>| #[trigger] entry_map(f).dom().contains(x) implies entry_map(f)[x] == entry_map(e).insert(e[i].0, c)[x] by {
        let j = choose|j: int| 0 <= j < f.len() && #[trigger] f[j].0 == x;
        lemma_entry_map_at(f, j);
        lemma_entry_map_at(e, j);
    }
    assert(entry_map(f) =~= entry_map(e).insert(e[i].0, c));
}

/// Removing entry `i` removes its name from the map.
pub proof fn lemma_entry_map_remove(e: Entries, i: int)
    requires
        distinct_names(e),
        0 <= i < e.len(),
    ensures
        distinct_names(e.remove(i)),
        entry_map(e.remove(i)) == entry_map(e).remove(e[i].0),
{
    let f = e.remove(i);
    assert forall|a: int, b: int| 0 <= a < f.len() && 0 <= b < f.len() && a != b implies #[trigger] f[a].0 != #[trigger] f[b].0 by {
        let a2 = if a < i { a } else { a + 1 };
        let b2 = if b < i { b } else { b + 1 };
        assert(f[a] == e[a2]);
        assert(f[b] == e[b2]);
    }
    assert forall|x: Seq<char>| has_name(f, x) == (has_name(e, x) && x != e[i].0) by {
        if has_name(e, x) && x != e[i].0 {
            let j = choose|j: int| 0 <= j < e.len() && #[trigger] e[j].0 == x;
            if j < i {
                assert(f[j].0 == x);
            } else {
                assert(f[j - 1].0 == x);
            }
        }
        if has_name(f, x) {
            let j = choose|j: int| 0 <= j < f.len() && #[trigger] f[j].0 == x;
            let j2 = if j < i { j } else { j + 1 };
            assert(e[j2].0 == x);
        }
    }
    assert forall|x: Seq<char>| #[trigger] entry_map(f).dom().contains(x) implies entry_map(f)[x] == entry_map(e).remove(e[i].0)[x] by {
        let j = choose|j: int| 0 <= j < f.len() && #[trigger] f[j].0 == x;
        lemma_entry_map_at(f, j);
        let j2 = if j < i { j } else { j + 1 };
        assert(e[j2] == f[j]);
        lemma_entry_map_at(e, j2);
    }
    assert(entry_map(f) =~= entry_map(e).remove(e[i].0));
}

/// The mathematical value of an `InferenceRouter`.
pub struct RouterView {
    /// The registered backends, by name.
    pub backends: Map<Seq<char>, ClientView>,
    /// The name of the default backend (the rule engine is "rules").
    pub default_backend: Seq<char>,
}

/// Chooses among the registered inference backends.
pub struct InferenceRouter {
    backends: Vec<(String, OpenAICompatClient)>,
    default_backend: String,
}

/// The names and settings held in `v`.
pub open spec fn entries_of(v: Seq<(String, OpenAICompatClient)>) -> Entries {
    Seq::new(v.len(), |i: int| (v[i].0@, v[i].1@))
}

/// The position of the backend named `name` in `v`.
fn position_in(v: &Vec<(String, OpenAICompatClient)>, name: &String) -> (r: Option<usize>)
    ensures
        match r {
            Some(i) => i < v@.len() && v@[i as int].0@ == name@,
            None => !has_name(entries_of(v@), name@),
        },
{
    let n = v.len();
    let mut i: usize = 0;
    while i < n
        invariant
            n == v@.len(),
            i <= n,
            forall|j: int| 0 <= j < i ==> #[trigger] entries_of(v@)[j].0 != name@,
        decreases n - i,
    {
        if v[i].0 == *name {
            return Some(i);
        }
        i = i + 1;
    }
    None
}

impl InferenceRouter {
    #[verifier::type_invariant]
    spec fn names_distinct(self) -> bool {
        distinct_names(entries_of(self.backends@))
    }
}

impl View for InferenceRouter {
    type V = RouterView;

    closed spec fn view(&self) -> RouterView {
        RouterView { backends: entry_map(entries_of(self.backends@)), default_backend: self.default_backend@ }
    }
}

impl InferenceRouter {
    /// A router with no backend and the given default.
    pub fn new(default_backend: String) -> (r: InferenceRouter)
        ensures
            r@.backends == Map::<Seq<char>, ClientView>::empty(),
            r@.default_backend == default_backend@,
    {
        let r = InferenceRouter { backends: Vec::new(), default_backend };
        assert(entry_map(entries_of(r.backends@)) =~= Map::<Seq<char>, ClientView>::empty());
        r
    }

    /// Register `backend` under `name`, replacing the one registered under it before.
    pub fn register_backend(&mut self, name: String, backend: OpenAICompatClient)
        ensures
            final(self)@.backends == old(self)@.backends.insert(name@, backend@),
            final(self)@.default_backend == old(self)@.default_backend,
    {
        proof {
            use_type_invariant(&*self);
        }
        let ghost e = entries_of(self.backends@);
        let mut v = Vec::new();
        std::mem::swap(&mut v, &mut self.backends);
        let pos = position_in(&v, &name);
        let ghost cfg = backend@;
        match pos {
            Some(i) => {
                v.set(i, (name, backend));
                proof {
                    lemma_entry_map_update(e, i as int, cfg);
                    assert(entries_of(v@) =~= e.update(i as int, (e[i as int].0, cfg)));
                }
            },
            None => {
                let ghost k = name@;
                v.push((name, backend));
                proof {
                    lemma_entry_map_push(e, k, cfg);
                    assert(entries_of(v@) =~= e.push((k, cfg)));
                }
            },
        }
        let d = self.default_backend.clone();
        *self = InferenceRouter { backends: v, default_backend: d };
    }

    /// Remove the backend registered under `name`, if any.
    pub fn remove_backend(&mut self, name: &str)
        ensures
            final(self)@.backends == old(self)@.backends.remove(name@),
            final(self)@.default_backend == old(self)@.default_backend,
    {
        proof {
            use_type_invariant(&*self);
        }
        let ghost e = entries_of(self.backends@);
        let key = name.to_owned();
        let pos = position_in(&self.backends, &key);
        match pos {
            Some(i) => {
                let mut v = Vec::new();
                std::mem::swap(&mut v, &mut self.backends);
                let ghost before = v@;
                let _removed = v.remove(i);
                proof {
                    lemma_entry_map_remove(e, i as int);
                    assert(entries_of(v@) =~= e.remove(i as int));
                }
                let d = self.default_backend.clone();
                *self = InferenceRouter { backends: v, default_backend: d };
            },
            None => {
                assert forall|x: Seq<char>| #[trigger] entry_map(e).dom().contains(x) == entry_map(e).remove(name@).dom().contains(x) by {}
                assert(entry_map(e) =~= entry_map(e).remove(name@));
            },
        }
    }

    /// The backend registered under `name`.
    pub fn get_backend(&self, name: &str) -> (r: Option<&OpenAICompatClient>)
        ensures
            match r {
                Some(c) => self@.backends.dom().contains(name@) && self@.backends[name@] == c@,
                None => !self@.backends.dom().contains(name@),
            },
    {
        proof {
            use_type_invariant(self);
        }
        let key = name.to_owned();
        match position_in(&self.backends, &key) {
            Some(i) => {
                proof {
                    lemma_entry_map_at(entries_of(self.backends@), i as int);
                }
                Some(&self.backends[i].1)
            },
            None => None,
        }
    }

    /// The default backend, when one is registered under the default name.
    pub fn get_default_backend(&self) -> (r: Option<&OpenAICompatClient>)
        ensures
            match r {
                Some(c) => self@.backends.dom().contains(self@.default_backend)
                    && self@.backends[self@.default_backend] == c@,
                None => !self@.backends.dom().contains(self@.default_backend),
            },
    {
        self.get_backend(self.default_backend.as_str())
    }

    /// The name of the default backend.
    pub fn default_backend_name(&self) -> (r: &str)
        ensures
            r@ == self@.default_backend,
    {
        self.default_backend.as_str()
    }

    /// Make `name` the default backend.
    pub fn set_default_backend(&mut self, name: String)
        ensures
            final(self)@.backends == old(self)@.backends,
            final(self)@.default_backend == name@,
    {
        proof {
            use_type_invariant(&*self);
        }
        self.default_backend = name;
    }

    /// The names of the registered backends, each once.
    pub fn list_backends(&self) -> (r: Vec<String>)
        ensures
            forall|k: Seq<char>| self@.backends.dom().contains(k) <==> exists|i: int| 0 <= i < r@.len() && #[trigger] r@[i]@ == k,
            forall|i: int, j: int| 0 <= i < r@.len() && 0 <= j < r@.len() && i != j ==> #[trigger] r@[i]@ != #[trigger] r@[j]@,
    {
        proof {
            use_type_invariant(self);
        }
        let ghost e = entries_of(self.backends@);
        let mut out: Vec<String> = Vec::new();
        let n = self.backends.len();
        let mut i: usize = 0;
        while i < n
            invariant
                n == self.backends@.len(),
                e == entries_of(self.backends@),
                i <= n,
                out@.len() == i,
                forall|j: int| 0 <= j < i ==> #[trigger] out@[j]@ == e[j].0,
            decreases n - i,
        {
            out.push(self.backends[i].0.clone());
            i = i + 1;
        }
        assert forall|k: Seq<char>| self@.backends.dom().contains(k) <==> exists|i: int| 0 <= i < out@.len() && #[trigger] out@[i]@ == k by {
            if has_name(e, k) {
                let j = choose|j: int| 0 <= j < e.len() && #[trigger] e[j].0 == k;
                assert(out@[j]@ == k);
            }
            if exists|i: int| 0 <= i < out@.len() && #[trigger] out@[i]@ == k {
                let j = choose|i: int| 0 <= i < out@.len() && #[trigger] out@[i]@ == k;
                assert(e[j].0 == k);
            }
        }
        assert forall|a: int, b: int| 0 <= a < out@.len() && 0 <= b < out@.len() && a != b implies #[trigger] out@[a]@ != #[trigger] out@[b]@ by {
            assert(out@[a]@ == e[a].0);
            assert(out@[b]@ == e[b].0);
        }
        out
    }

    /// Whether any backend is registered.
    pub fn has_remote_backend(&self) -> (r: bool)
        ensures
            r == !self@.backends.is_empty(),
    {
        proof {
            use_type_invariant(self);
        }
        let ghost e = entries_of(self.backends@);
        let r = self.backends.len() > 0;
        proof {
            if r {
                lemma_entry_map_at(e, 0);
                assert(entry_map(e).dom().contains(e[0].0));
            } else {
                assert(entry_map(e).dom() =~= Set::<Seq<char>>::empty());
            }
        }
        r
    }
}

} // verus!
