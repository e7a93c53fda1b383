use std::collections::HashMap;

use vstd::prelude::*;
use vstd::std_specs::hash::{axiom_spec_keys_iter, spec_keys_iter};
use vstd::std_specs::iter::IteratorSpec;

verus! {

broadcast use vstd::std_specs::hash::group_hash_axioms;

/// The local port chosen for each remote port of one service.
pub struct PortMap {
    map: HashMap<u16, u16>,
}

impl View for PortMap {
    type V = Map<u16, u16>;

    closed spec fn view(&self) -> Map<u16, u16> {
        self.map@
    }
}

impl PortMap {
    /// A mapping with no remote port.
    pub fn new() -> (r: Self)
        ensures
            r@ == Map::<u16, u16>::empty(),
    {
        PortMap { map: HashMap::new() }
    }

    /// The local port recorded for `remote`, if any.
    pub fn get(&self, remote: u16) -> (r: Option<u16>)
        ensures
            r == (if self@.contains_key(remote) { Some(self@[remote]) } else { None::<u16> }),
    {
        match self.map.get(&remote) {
            Some(l) => Some(*l),
            None => None,
        }
    }

    /// Whether a local port is recorded for `remote`.
    pub fn contains_key(&self, remote: u16) -> (r: bool)
        ensures
            r == self@.contains_key(remote),
    {
        self.map.contains_key(&remote)
    }

    /// Records `local` for `remote`, replacing an earlier choice.
    pub fn insert(&mut self, remote: u16, local: u16)
        ensures
            final(self)@ == old(self)@.insert(remote, local),
    {
        self.map.insert(remote, local);
    }

    /// The remote ports of the mapping, each once, in the map's own order.
    pub fn remote_ports(&self) -> (r: Vec<u16>)
        ensures
            r@.no_duplicates(),
            forall|p: u16| r@.contains(p) <==> self@.contains_key(p),
            r@.len() == self@.dom().len(),
    {
        let ghost keys = spec_keys_iter(&self.map).remaining();
        proof {
            axiom_spec_keys_iter(&self.map);
        }
        let mut r: Vec<u16> = Vec::new();
        for k in it: self.map.keys()
            invariant
                it.seq() == keys,
                keys.unref().to_set() == self@.dom(),
                keys.no_duplicates(),
                keys.len() == self@.dom().len(),
                r@ == keys.take(it.index() as int).unref(),
        {
            r.push(*k);
            assert(r@ =~= keys.take(it.index() + 1).unref());
        }
        assert(r@ =~= keys.unref());
        r
    }
}

impl Clone for PortMap {
    fn clone(&self) -> (r: Self)
        ensures
            r@ == self@,
    {
        PortMap { map: self.map.clone() }
    }
}

/// `entries` lists each key of `model` exactly once, with its port mapping.
spec fn entries_match(entries: Seq<(String, PortMap)>, model: Map<Seq<char>, Map<u16, u16>>) -> bool {
    &&& forall|i: int, j: int|
        0 <= i < j < entries.len() ==> #[trigger] entries[i].0@ != #[trigger] entries[j].0@
    &&& forall|i: int|
        0 <= i < entries.len() ==> {
            &&& model.contains_key(#[trigger] entries[i].0@)
            &&& model[entries[i].0@] == entries[i].1@
        }
    &&& forall|k: Seq<char>|
        #[trigger] model.contains_key(k) ==> exists|i: int|
            0 <= i < entries.len() && #[trigger] entries[i].0@ == k
}

/// The port mapping last chosen for each service, keyed by service name.
///
/// Entries are kept in the order in which services were first recorded. The
/// keys are strings, for which vstd's `HashMap` specification offers no key
/// model, so the entries are held in a `Vec` whose invariant keeps each name
/// once.
pub struct ServicePorts {
    entries: Vec<(String, PortMap)>,
    model: Ghost<Map<Seq<char>, Map<u16, u16>>>,
}

impl View for ServicePorts {
    type V = Map<Seq<char>, Map<u16, u16>>;

    closed spec fn view(&self) -> Map<Seq<char>, Map<u16, u16>> {
        self.model@
    }
}

impl ServicePorts {
    #[verifier::type_invariant]
    spec fn inv(self) -> bool {
        entries_match(self.entries@, self.model@)
    }

    /// A history with no service.
    pub fn new() -> (r: Self)
        ensures
            r@ == Map::<Seq<char>, Map<u16, u16>>::empty(),
    {
        ServicePorts { entries: Vec::new(), model: Ghost(Map::empty()) }
    }

    fn index_of(&self, name: &String) -> (r: Option<usize>)
        ensures
            match r {
                Some(i) => i < self.entries@.len() && self.entries@[i as int].0@ == name@,
                None => !self@.contains_key(name@),
            },
    {
        proof {
            use_type_invariant(self);
        }
        let mut i: usize = 0;
        while i < self.entries.len()
            invariant
                i <= self.entries@.len(),
                forall|j: int| 0 <= j < i ==> self.entries@[j].0@ != name@,
            decreases self.entries@.len() - i,
        {
            if self.entries[i].0 == *name {
                return Some(i);
            }
            i = i + 1;
        }
        None
    }

    /// The port mapping recorded for the service called `name`, if any.
    pub fn get(&self, name: &String) -> (r: Option<&PortMap>)
        ensures
            match r {
                Some(m) => self@.contains_key(name@) && m@ == self@[name@],
                None => !self@.contains_key(name@),
            },
    {
        proof {
            use_type_invariant(self);
        }
        match self.index_of(name) {
            Some(i) => Some(&self.entries[i].1),
            None => None,
        }
    }

    /// Whether a port mapping is recorded for the service called `name`.
    pub fn contains_key(&self, name: &String) -> (r: bool)
        ensures
            r == self@.contains_key(name@),
    {
        proof {
            use_type_invariant(self);
        }
        self.index_of(name).is_some()
    }

    /// Records `ports` for the service called `name`, replacing its earlier mapping.
    pub fn insert(&mut self, name: String, ports: PortMap)
        ensures
            final(self)@ == old(self)@.insert(name@, ports@),
    {
        proof {
            use_type_invariant(&*self);
        }
        let found = self.index_of(&name);
        let mut taken = ServicePorts::new();
        core::mem::swap(self, &mut taken);
        proof {
            use_type_invariant(&taken);
        }
        let ghost old_entries = taken.entries@;
        let ghost old_model = taken.model@;
        let ServicePorts { mut entries, model } = taken;
        let ghost key = name@;
        let ghost value = ports@;
        match found {
            Some(i) => {
                entries.set(i, (name, ports));
            },
            None => {
                entries.push((name, ports));
            },
        }
        let ghost new_model = old_model.insert(key, value);
        proof {
            let n = old_entries.len();
            assert forall|i: int| 0 <= i < n && (found.is_none() || i != found.unwrap() as int)
                implies #[trigger] entries@[i] == old_entries[i] by {}
            if found.is_none() {
                assert forall|i: int| 0 <= i < n implies #[trigger] old_entries[i].0@ != key by {
                    assert(old_model.contains_key(old_entries[i].0@));
                }
            }
            assert forall|i: int, j: int| 0 <= i < j < entries@.len() implies #[trigger] entries@[i].0@
                != #[trigger] entries@[j].0@ by {
                if j < n {
                    assert(old_entries[i].0@ != old_entries[j].0@);
                } else {
                    assert(old_entries[i].0@ != key);
                }
            }
            assert forall|i: int| 0 <= i < entries@.len() implies {
                &&& new_model.contains_key(#[trigger] entries@[i].0@)
                &&& new_model[entries@[i].0@] == entries@[i].1@
            } by {
                if i < n && old_entries[i].0@ != key {
                    assert(old_model.contains_key(old_entries[i].0@));
                }
            }
            assert forall|k: Seq<char>| #[trigger] new_model.contains_key(k) implies exists|i: int|
                0 <= i < entries@.len() && #[trigger] entries@[i].0@ == k by {
                if k == key {
                    match found {
                        Some(i) => assert(entries@[i as int].0@ == k),
                        None => assert(entries@[entries@.len() - 1].0@ == k),
                    }
                } else {
                    let i = choose|i: int| 0 <= i < old_entries.len() && old_entries[i].0@ == k;
                    assert(entries@[i].0@ == k);
                }
            }
            assert(entries_match(entries@, new_model));
        }
        *self = ServicePorts { entries, model: Ghost(new_model) };
    }

    /// The names of the recorded services, in the order they were first recorded.
    pub fn names(&self) -> (r: Vec<String>)
        ensures
            r@.len() == self@.dom().len(),
            forall|i: int| 0 <= i < r@.len() ==> self@.contains_key(#[trigger] r@[i]@),
            forall|k: Seq<char>|
                self@.contains_key(k) ==> exists|i: int| 0 <= i < r@.len() && #[trigger] r@[i]@ == k,
            forall|i: int, j: int| 0 <= i < j < r@.len() ==> #[trigger] r@[i]@ != #[trigger] r@[j]@,
    {
        proof {
            use_type_invariant(self);
        }
        let mut r: Vec<String> = Vec::new();
        let mut i: usize = 0;
        while i < self.entries.len()
            invariant
                i <= self.entries@.len(),
                r@.len() == i,
                forall|j: int| 0 <= j < i ==> #[trigger] r@[j]@ == self.entries@[j].0@,
            decreases self.entries@.len() - i,
        {
            r.push(self.entries[i].0.clone());
            i = i + 1;
        }
        proof {
            assert forall|k: Seq<char>| self@.contains_key(k) implies exists|i: int|
                0 <= i < r@.len() && #[trigger] r@[i]@ == k by {
                let j = choose|j: int| 0 <= j < self.entries@.len() && self.entries@[j].0@ == k;
                assert(r@[j]@ == k);
            }
            let keys = r@.map_values(|s: String| s@);
            assert forall|a: int, b: int| 0 <= a < keys.len() && 0 <= b < keys.len() && a != b
                implies keys[a] != keys[b] by {
                if a < b {
                    assert(self.entries@[a].0@ != self.entries@[b].0@);
                } else {
                    assert(self.entries@[b].0@ != self.entries@[a].0@);
                }
            }
            assert(keys.to_set() =~= self@.dom()) by {
                assert forall|k: Seq<char>| keys.to_set().contains(k) implies self@.dom().contains(k) by {
                    let j = choose|j: int| 0 <= j < keys.len() && keys[j] == k;
                    assert(self.entries@[j].0@ == k);
                }
                assert forall|k: Seq<char>| self@.dom().contains(k) implies keys.to_set().contains(k) by {
                    let j = choose|j: int| 0 <= j < self.entries@.len() && self.entries@[j].0@ == k;
                    assert(keys[j] == k);
                }
            }
            keys.unique_seq_to_set();
            assert forall|i: int| 0 <= i < r@.len() implies self@.contains_key(#[trigger] r@[i]@) by {
                assert(self.model@.contains_key(self.entries@[i].0@));
            }
            assert forall|a: int, b: int| 0 <= a < b < r@.len() implies #[trigger] r@[a]@
                != #[trigger] r@[b]@ by {
                assert(keys[a] != keys[b]);
            }
        }
        r
    }
}

impl Clone for ServicePorts {
    fn clone(&self) -> (r: Self)
        ensures
            r@ == self@,
    {
        proof {
            use_type_invariant(self);
        }
        let mut entries: Vec<(String, PortMap)> = Vec::new();
        let mut j: usize = 0;
        while j < self.entries.len()
            invariant
                j <= self.entries@.len(),
                entries@.len() == j,
                forall|k: int|
                    0 <= k < j ==> #[trigger] entries@[k].0@ == self.entries@[k].0@ && entries@[k].1@
                        == self.entries@[k].1@,
            decreases self.entries@.len() - j,
        {
            let e = &self.entries[j];
            entries.push((e.0.clone(), e.1.clone()));
            j = j + 1;
        }
        proof {
            let m = self.model@;
            assert forall|k: Seq<char>| #[trigger] m.contains_key(k) implies exists|i: int|
                0 <= i < entries@.len() && #[trigger] entries@[i].0@ == k by {
                let i = choose|i: int| 0 <= i < self.entries@.len() && self.entries@[i].0@ == k;
                assert(entries@[i].0@ == k);
            }
            assert forall|a: int, b: int| 0 <= a < b < entries@.len() implies #[trigger] entries@[a].0@
                != #[trigger] entries@[b].0@ by {
                assert(self.entries@[a].0@ != self.entries@[b].0@);
            }
            assert forall|i: int| 0 <= i < entries@.len() implies {
                &&& m.contains_key(#[trigger] entries@[i].0@)
                &&& m[entries@[i].0@] == entries@[i].1@
            } by {
                assert(m.contains_key(self.entries@[i].0@));
            }
            assert(entries_match(entries@, m));
        }
        ServicePorts { entries, model: Ghost(self.model@) }
    }
}

} // verus!
