//! The registry: the backends of a process, each under its name. It is
//! filled once at startup and dispatches every request by name.

use vstd::prelude::*;

use crate::drivers::traits::{
    Call, Outcome, OutcomeView, PowerManagerTrait, Progress, ProgressView,
};
use crate::drivers::{lemma_steps_keep_name, Backend, BackendView};
use crate::{Error, ErrorView};

verus! {

/// The mathematical values of a list of backends.
pub open spec fn views(s: Seq<Backend>) -> Seq<BackendView> {
    s.map_values(|b: Backend| b@)
}

/// Whether no two backends of `s` share a name.
pub open spec fn names_distinct(s: Seq<BackendView>) -> bool {
    forall|i: int, j: int| 0 <= i < j < s.len() ==> s[i].name() != s[j].name()
}

/// The backends of `s`, each under its name. Of two with one name the later
/// stands.
pub open spec fn by_name(s: Seq<BackendView>) -> Map<Seq<char>, BackendView>
    decreases s.len(),
{
    if s.len() == 0 {
        Map::empty()
    } else {
        by_name(s.drop_last()).insert(s.last().name(), s.last())
    }
}

/// What a request for a name that is not registered ends with.
pub open spec fn not_found() -> ProgressView {
    ProgressView::Finished(Err(ErrorView::NotFound("driver is not found"@)))
}

/// A name is a key of `by_name(s)` exactly when a backend of `s` bears it.
pub proof fn lemma_by_name_keys(s: Seq<BackendView>, n: Seq<char>)
    ensures
        by_name(s).contains_key(n) <==> exists|i: int| 0 <= i < s.len() && s[i].name() == n,
    decreases s.len(),
{
    if s.len() > 0 {
        let t = s.drop_last();
        lemma_by_name_keys(t, n);
        if by_name(s).contains_key(n) {
            if s.last().name() == n {
                assert(s[s.len() - 1].name() == n);
            } else {
                let i = choose|i: int| 0 <= i < t.len() && t[i].name() == n;
                assert(s[i].name() == n);
            }
        }
        if exists|i: int| 0 <= i < s.len() && s[i].name() == n {
            let i = choose|i: int| 0 <= i < s.len() && s[i].name() == n;
            if i < s.len() - 1 {
                assert(t[i].name() == n);
            }
        }
    }
}

/// Among backends of distinct names, each is found under its own name.
pub proof fn lemma_by_name_entry(s: Seq<BackendView>, i: int)
    requires
        names_distinct(s),
        0 <= i < s.len(),
    ensures
        by_name(s).contains_key(s[i].name()),
        by_name(s)[s[i].name()] == s[i],
    decreases s.len(),
{
    if i < s.len() - 1 {
        let t = s.drop_last();
        assert(names_distinct(t)) by {
            assert forall|a: int, b: int| 0 <= a < b < t.len() implies t[a].name() != t[b].name() by {
                assert(t[a] == s[a] && t[b] == s[b]);
            }
        }
        lemma_by_name_entry(t, i);
        assert(s[i].name() != s[s.len() - 1].name());
    }
}

/// Backends of distinct names fill as many places as there are backends.
pub proof fn lemma_by_name_len(s: Seq<BackendView>)
    requires
        names_distinct(s),
    ensures
        by_name(s).dom().finite(),
        by_name(s).dom().len() == s.len(),
    decreases s.len(),
{
    if s.len() > 0 {
        let t = s.drop_last();
        assert(names_distinct(t)) by {
            assert forall|a: int, b: int| 0 <= a < b < t.len() implies t[a].name() != t[b].name() by {
                assert(t[a] == s[a] && t[b] == s[b]);
            }
        }
        lemma_by_name_len(t);
        lemma_by_name_keys(t, s.last().name());
        assert(!by_name(t).contains_key(s.last().name())) by {
            if exists|i: int| 0 <= i < t.len() && t[i].name() == s.last().name() {
                let i = choose|i: int| 0 <= i < t.len() && t[i].name() == s.last().name();
                assert(s[i].name() != s[s.len() - 1].name());
            }
        }
        assert(by_name(s).dom() =~= by_name(t).dom().insert(s.last().name()));
    } else {
        assert(by_name(s).dom() =~= Set::<Seq<char>>::empty());
    }
}

/// To put a backend in the place of one of the same name is to register it
/// anew.
pub proof fn lemma_by_name_update(s: Seq<BackendView>, i: int, b: BackendView)
    requires
        names_distinct(s),
        0 <= i < s.len(),
        b.name() == s[i].name(),
    ensures
        names_distinct(s.update(i, b)),
        by_name(s.update(i, b)) == by_name(s).insert(b.name(), b),
    decreases s.len(),
{
    let u = s.update(i, b);
    assert(names_distinct(u)) by {
        assert forall|a: int, c: int| 0 <= a < c < u.len() implies u[a].name() != u[c].name() by {
            assert(u[a].name() == s[a].name() && u[c].name() == s[c].name());
        }
    }
    let t = s.drop_last();
    if i == s.len() - 1 {
        assert(u.drop_last() =~= t);
        assert(by_name(u) =~= by_name(s).insert(b.name(), b));
    } else {
        assert(names_distinct(t)) by {
            assert forall|a: int, c: int| 0 <= a < c < t.len() implies t[a].name() != t[c].name() by {
                assert(t[a] == s[a] && t[c] == s[c]);
            }
        }
        lemma_by_name_update(t, i, b);
        assert(u.drop_last() =~= t.update(i, b));
        assert(u.last() == s.last());
        assert(s[i].name() != s[s.len() - 1].name());
        assert(by_name(u) =~= by_name(s).insert(b.name(), b));
    }
}

/// A backend is found under the name it was registered with, as it was
/// registered; what stands under any other name is as before. A name that
/// nothing was registered under finds nothing.
pub proof fn law_registered_backend_is_found(
    registry: Map<Seq<char>, BackendView>,
    backend: BackendView,
    other: Seq<char>,
)
    requires
        other != backend.name(),
    ensures
        registry.insert(backend.name(), backend).contains_key(backend.name()),
        registry.insert(backend.name(), backend)[backend.name()] == backend,
        registry.insert(backend.name(), backend).contains_key(other) == registry.contains_key(
            other,
        ),
        registry.contains_key(other) ==> registry.insert(backend.name(), backend)[other]
            == registry[other],
        !Map::<Seq<char>, BackendView>::empty().contains_key(other),
{
}

/// The backends of a process, each under its name.
#[derive(Debug)]
pub struct Registry {
    entries: Vec<Backend>,
}

impl View for Registry {
    type V = Map<Seq<char>, BackendView>;

    closed spec fn view(&self) -> Map<Seq<char>, BackendView> {
        by_name(views(self.entries@))
    }
}

impl Registry {
    #[verifier::type_invariant]
    spec fn well_formed(&self) -> bool {
        names_distinct(views(self.entries@))
    }

    /// A registry without backends.
    pub fn new() -> (registry: Self)
        ensures
            registry@ == Map::<Seq<char>, BackendView>::empty(),
    {
        Registry { entries: Vec::new() }
    }

    /// The place of the backend named `name`, if there is one.
    fn position(&self, name: &String) -> (at: Option<usize>)
        ensures
            match at {
                Some(i) => i < self.entries.len() && self.entries[i as int]@.name() == name@,
                None => forall|j: int|
                    0 <= j < self.entries.len() ==> (#[trigger] self.entries[j])@.name() != name@,
            },
    {
        let mut i: usize = 0;
        while i < self.entries.len()
            invariant
                i <= self.entries.len(),
                forall|j: int| 0 <= j < i ==> (#[trigger] self.entries[j])@.name() != name@,
            decreases self.entries.len() - i,
        {
            if *self.entries[i].name() == *name {
                return Some(i);
            }
            i = i + 1;
        }
        None
    }

    /// The number of backends.
    pub fn len(&self) -> (len: usize)
        ensures
            self@.dom().finite(),
            len == self@.dom().len(),
    {
        proof {
            use_type_invariant(self);
            lemma_by_name_len(views(self.entries@));
        }
        self.entries.len()
    }

    /// Registers `backend` under its name. A backend registered under that
    /// name before is replaced.
    pub fn insert(&mut self, backend: Backend)
        ensures
            final(self)@ == old(self)@.insert(backend@.name(), backend@),
    {
        proof {
            use_type_invariant(&*self);
        }
        let ghost before = views(self.entries@);
        let found = self.position(backend.name());
        let mut entries: Vec<Backend> = Vec::new();
        std::mem::swap(&mut self.entries, &mut entries);
        match found {
            Some(i) => {
                proof {
                    lemma_by_name_update(before, i as int, backend@);
                    assert(views(entries@.update(i as int, backend)) =~= before.update(
                        i as int,
                        backend@,
                    ));
                }
                entries[i] = backend;
            },
            None => {
                proof {
                    let after = views(entries@.push(backend));
                    assert(after =~= before.push(backend@));
                    assert(after.drop_last() =~= before);
                    assert(names_distinct(after)) by {
                        assert forall|a: int, c: int| 0 <= a < c < after.len() implies after[a].name()
                            != after[c].name() by {
                            if c < before.len() {
                                assert(after[a] == before[a] && after[c] == before[c]);
                            } else {
                                assert(after[a] == entries[a]@);
                            }
                        }
                    }
                }
                entries.push(backend);
            },
        }
        std::mem::swap(&mut self.entries, &mut entries);
    }

    /// The backend registered under `name`, if there is one.
    pub fn get(&self, name: &str) -> (found: Option<&Backend>)
        ensures
            match found {
                Some(b) => self@.contains_key(name@) && self@[name@] == b@,
                None => !self@.contains_key(name@),
            },
    {
        proof {
            use_type_invariant(self);
            lemma_by_name_keys(views(self.entries@), name@);
        }
        let key = String::from_str(name);
        match self.position(&key) {
            Some(i) => {
                proof {
                    lemma_by_name_entry(views(self.entries@), i as int);
                }
                Some(&self.entries[i])
            },
            None => {
                assert forall|j: int| 0 <= j < self.entries.len() implies views(
                    self.entries@,
                )[j].name() != name@ by {
                    assert(self.entries[j]@.name() != name@);
                }
                None
            },
        }
    }

    /// All backends, no two of one name.
    pub fn all(&self) -> (all: &Vec<Backend>)
        ensures
            names_distinct(views(all@)),
            by_name(views(all@)) == self@,
    {
        proof {
            use_type_invariant(self);
        }
        &self.entries
    }

    /// The first step of `call` on the backend registered under `name`.
    /// Where there is none the call ends at once, as not found.
    pub fn begin(&mut self, name: &str, call: &Call) -> (p: Progress)
        ensures
            old(self)@.contains_key(name@) ==> {
                &&& final(self)@ == old(self)@.insert(
                    name@,
                    old(self)@[name@].begin(call.op, call.at).0,
                )
                &&& p@ == old(self)@[name@].begin(call.op, call.at).1
            },
            !old(self)@.contains_key(name@) ==> final(self)@ == old(self)@ && p@ == not_found(),
    {
        proof {
            use_type_invariant(&*self);
            lemma_by_name_keys(views(self.entries@), name@);
        }
        let ghost before = views(self.entries@);
        let key = String::from_str(name);
        match self.position(&key) {
            Some(i) => {
                proof {
                    lemma_by_name_entry(before, i as int);
                    let next = before[i as int].begin(call.op, call.at).0;
                    lemma_steps_keep_name(
                        before[i as int],
                        call.op,
                        call.at,
                        OutcomeView::Sent(Ok(())),
                    );
                    lemma_by_name_update(before, i as int, next);
                }
                let mut entries: Vec<Backend> = Vec::new();
                std::mem::swap(&mut self.entries, &mut entries);
                let p = entries[i].begin(call);
                proof {
                    assert(views(entries@) =~= before.update(i as int, entries[i as int]@));
                }
                std::mem::swap(&mut self.entries, &mut entries);
                p
            },
            None => {
                assert forall|j: int| 0 <= j < self.entries.len() implies before[j].name()
                    != name@ by {
                    assert(self.entries[j]@.name() != name@);
                }
                Progress::Finished(Err(Error::NotFound(String::from_str("driver is not found"))))
            },
        }
    }

    /// The step of `call` on the backend registered under `name` that follows
    /// `outcome`. Where there is none the call ends at once, as not found.
    pub fn resume(&mut self, name: &str, call: &Call, outcome: Outcome) -> (p: Progress)
        ensures
            old(self)@.contains_key(name@) ==> {
                &&& final(self)@ == old(self)@.insert(
                    name@,
                    old(self)@[name@].resume(call.op, call.at, outcome@).0,
                )
                &&& p@ == old(self)@[name@].resume(call.op, call.at, outcome@).1
            },
            !old(self)@.contains_key(name@) ==> final(self)@ == old(self)@ && p@ == not_found(),
    {
        proof {
            use_type_invariant(&*self);
            lemma_by_name_keys(views(self.entries@), name@);
        }
        let ghost before = views(self.entries@);
        let key = String::from_str(name);
        match self.position(&key) {
            Some(i) => {
                proof {
                    lemma_by_name_entry(before, i as int);
                    let next = before[i as int].resume(call.op, call.at, outcome@).0;
                    lemma_steps_keep_name(before[i as int], call.op, call.at, outcome@);
                    lemma_by_name_update(before, i as int, next);
                }
                let mut entries: Vec<Backend> = Vec::new();
                std::mem::swap(&mut self.entries, &mut entries);
                let p = entries[i].resume(call, outcome);
                proof {
                    assert(views(entries@) =~= before.update(i as int, entries[i as int]@));
                }
                std::mem::swap(&mut self.entries, &mut entries);
                p
            },
            None => {
                assert forall|j: int| 0 <= j < self.entries.len() implies before[j].name()
                    != name@ by {
                    assert(self.entries[j]@.name() != name@);
                }
                Progress::Finished(Err(Error::NotFound(String::from_str("driver is not found"))))
            },
        }
    }
}

} // verus!
