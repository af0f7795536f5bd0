//! A map keyed by HTTP method.

use vstd::prelude::*;

use crate::protocol::Method;

verus! {

/// At most one value for each HTTP method. Its view is keyed by the method's name.
pub struct MethodMap<V> {
    entries: Vec<(Method, V)>,
}

/// The position of the entry for a method's name.
spec fn has_entry<V>(entries: Seq<(Method, V)>, name: Seq<char>, i: int) -> bool {
    0 <= i < entries.len() && entries[i].0@ == name
}

impl<V> MethodMap<V> {
    #[verifier::type_invariant]
    spec fn inv(self) -> bool {
        forall|i: int, j: int|
            0 <= i < j < self.entries@.len() ==> (#[trigger] self.entries@[i]).0@ != (
            #[trigger] self.entries@[j]).0@
    }
}

impl<V> View for MethodMap<V> {
    type V = Map<Seq<char>, V>;

    closed spec fn view(&self) -> Map<Seq<char>, V> {
        Map::new(
            |name: Seq<char>| exists|i: int| has_entry(self.entries@, name, i),
            |name: Seq<char>| self.entries@[choose|i: int| has_entry(self.entries@, name, i)].1,
        )
    }
}

impl<V> MethodMap<V> {
    /// A map without entries.
    pub fn new() -> (map: Self)
        ensures
            map@ == Map::<Seq<char>, V>::empty(),
    {
        let map = MethodMap { entries: Vec::new() };
        assert(map@ =~= Map::empty());
        map
    }

    fn position(&self, method: &Method) -> (position: Option<usize>)
        ensures
            match position {
                Some(i) => has_entry(self.entries@, method@, i as int),
                None => forall|i: int| !has_entry(self.entries@, method@, i),
            },
    {
        for i in 0..self.entries.len()
            invariant
                forall|j: int| 0 <= j < i ==> (#[trigger] self.entries@[j]).0@ != method@,
        {
            if self.entries[i].0 == *method {
                return Some(i);
            }
        }
        None
    }

    /// The value for a method.
    pub fn get(&self, method: &Method) -> (value: Option<&V>)
        ensures
            value == (if self@.contains_key(method@) {
                Some(&self@[method@])
            } else {
                None
            }),
    {
        proof {
            use_type_invariant(self);
        }
        match self.position(method) {
            Some(i) => Some(&self.entries[i].1),
            None => None,
        }
    }

    /// Take the value for a method out of the map.
    pub fn remove(&mut self, method: &Method) -> (value: Option<V>)
        ensures
            final(self)@ == old(self)@.remove(method@),
            value == (if old(self)@.contains_key(method@) {
                Some(old(self)@[method@])
            } else {
                None
            }),
    {
        proof {
            use_type_invariant(&*self);
        }
        match self.position(method) {
            Some(i) => {
                let mut taken: MethodMap<V> = MethodMap { entries: Vec::new() };
                std::mem::swap(&mut taken, self);
                let mut entries = taken.entries;
                let ghost before = entries@;
                let (_, value) = entries.remove(i);
                *self = MethodMap { entries };
                proof {
                    assert forall|j: int| 0 <= j < before.len() && j != i implies has_entry(
                        self.entries@,
                        (#[trigger] before[j]).0@,
                        if j < i {
                            j
                        } else {
                            j - 1
                        },
                    ) by {}
                    assert forall|name: Seq<char>| name != method@ && old(self)@.contains_key(
                        name,
                    ) implies self@.contains_key(name) && self@[name] == old(self)@[name] by {
                        let j = choose|j: int| has_entry(before, name, j);
                        assert(before[j].0@ == name);
                    }
                    assert forall|name: Seq<char>| self@.contains_key(name) implies name != method@
                        && old(self)@.contains_key(name) by {
                        let j = choose|j: int| has_entry(self.entries@, name, j);
                        let k = if j < i {
                            j
                        } else {
                            j + 1
                        };
                        assert(has_entry(before, name, k));
                        assert(before[i as int].0@ == method@);
                        assert(before[k].0@ != before[i as int].0@);
                    }
                    assert(self@ =~= old(self)@.remove(method@));
                }
                Some(value)
            },
            None => {
                assert(self@ =~= old(self)@.remove(method@));
                None
            },
        }
    }

    /// Set the value for a method. The value that it replaces, if any, is given back.
    pub fn insert(&mut self, method: Method, value: V) -> (replaced: Option<V>)
        ensures
            final(self)@ == old(self)@.insert(method@, value),
            replaced == (if old(self)@.contains_key(method@) {
                Some(old(self)@[method@])
            } else {
                None
            }),
    {
        let replaced = self.remove(&method);
        proof {
            use_type_invariant(&*self);
        }
        let ghost without = self@;
        let mut taken: MethodMap<V> = MethodMap { entries: Vec::new() };
        std::mem::swap(&mut taken, self);
        let mut entries = taken.entries;
        let ghost before = entries@;
        entries.push((method, value));
        proof {
            assert forall|j: int| 0 <= j < before.len() implies (#[trigger] before[j]).0@
                != method@ by {
                assert(has_entry(before, before[j].0@, j));
                assert(without.contains_key(before[j].0@));
            }
        }
        *self = MethodMap { entries };
        proof {
            let n = before.len() as int;
            assert(has_entry(self.entries@, method@, n));
            let k = choose|k: int| has_entry(self.entries@, method@, k);
            assert(k < n ==> before[k].0@ != method@);
            assert(self@[method@] == value);
            assert forall|name: Seq<char>| name != method@ && #[trigger] without.contains_key(
                name,
            ) implies self@.contains_key(name) && self@[name] == without[name] by {
                let j = choose|j: int| has_entry(before, name, j);
                assert(has_entry(self.entries@, name, j));
            }
            assert forall|name: Seq<char>| name != method@ && #[trigger] self@.contains_key(
                name,
            ) implies without.contains_key(name) by {
                let j = choose|j: int| has_entry(self.entries@, name, j);
                assert(has_entry(before, name, j));
            }
            assert(self@ =~= without.insert(method@, value));
            assert(self@ =~= old(self)@.insert(method@, value));
        }
        replaced
    }
}

/// What is set for a method is found for it, and for it alone: what was found for the others is
/// found as before.
pub proof fn law_map_keeps_what_is_set<V>(
    map: &mut MethodMap<V>,
    method: Method,
    value: V,
    replaced: Option<V>,
    other: &Method,
    before: Option<&V>,
    after: Option<&V>,
)
    requires
        call_ensures(MethodMap::<V>::insert, (map, method, value), replaced),
        call_ensures(MethodMap::<V>::get, (&*old(map), other), before),
        call_ensures(MethodMap::<V>::get, (&*final(map), other), after),
    ensures
        other@ == method@ ==> after == Some(&value),
        other@ != method@ ==> after == before,
        other@ == method@ ==> (replaced is Some <==> before is Some),
        other@ == method@ && before is Some ==> replaced->0 == *before->0,
{
}

/// What is taken out for a method is what was found for it, and nothing is found for it any
/// more; what was found for the others is found as before.
pub proof fn law_map_loses_what_is_taken_out<V>(
    map: &mut MethodMap<V>,
    method: &Method,
    taken: Option<V>,
    other: &Method,
    before: Option<&V>,
    after: Option<&V>,
)
    requires
        call_ensures(MethodMap::<V>::remove, (map, method), taken),
        call_ensures(MethodMap::<V>::get, (&*old(map), other), before),
        call_ensures(MethodMap::<V>::get, (&*final(map), other), after),
    ensures
        other@ == method@ ==> after is None,
        other@ != method@ ==> after == before,
        other@ == method@ ==> (taken is Some <==> before is Some),
        other@ == method@ && before is Some ==> taken->0 == *before->0,
{
}

/// Nothing is found in a new map.
pub proof fn law_new_map_is_empty<V>(map: MethodMap<V>, method: &Method, found: Option<&V>)
    requires
        call_ensures(MethodMap::<V>::new, (), map),
        call_ensures(MethodMap::<V>::get, (&map, method), found),
    ensures
        found is None,
{
}

} // verus!
