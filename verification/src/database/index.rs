//! An index from names to values, in which every name occurs once.

use vstd::prelude::*;

verus! {

/// A map from strings to values of type `V`.
pub struct Index<V> {
    names: Vec<String>,
    values: Vec<V>,
}

impl<V> Index<V> {
    #[verifier::type_invariant]
    spec fn names_are_distinct(self) -> bool {
        &&& self.names@.len() == self.values@.len()
        &&& forall|i: int, j: int|
            0 <= i < j < self.names@.len() ==> (#[trigger] self.names@[i])@ != (
            #[trigger] self.names@[j])@
    }

    /// The index has an entry for `name`.
    pub closed spec fn contains(&self, name: Seq<char>) -> bool {
        exists|i: int| 0 <= i < self.names@.len() && (#[trigger] self.names@[i])@ == name
    }

    /// The names that have an entry.
    pub open spec fn names(&self) -> Set<Seq<char>> {
        Set::new(|name: Seq<char>| self.contains(name))
    }

    /// Where the entry for `name` lies.
    spec fn place(&self, name: Seq<char>) -> int {
        choose|i: int| 0 <= i < self.names@.len() && (#[trigger] self.names@[i])@ == name
    }

    /// The entries: each name with its value.
    pub closed spec fn entries(&self) -> Map<Seq<char>, V> {
        Map::new(
            |name: Seq<char>| self.contains(name),
            |name: Seq<char>| self.values@[self.place(name)],
        )
    }

    /// The entry at `i` is the entry for its name.
    proof fn lemma_place(self, i: int)
        requires
            self.names_are_distinct(),
            0 <= i < self.names@.len(),
        ensures
            self.contains(self.names@[i]@),
            self.place(self.names@[i]@) == i,
            self.entries()[self.names@[i]@] == self.values@[i],
    {
        let j = self.place(self.names@[i]@);
        assert(self.names@[j]@ == self.names@[i]@);
    }

    /// Number of entries.
    pub closed spec fn count(&self) -> nat {
        self.names@.len()
    }

    /// An index without entries.
    pub fn new() -> (index: Index<V>)
        ensures
            index.names() =~= Set::<Seq<char>>::empty(),
            index.entries() =~= Map::<Seq<char>, V>::empty(),
            forall|name: Seq<char>| !#[trigger] index.contains(name),
            index.count() == 0,
    {
        Index { names: Vec::new(), values: Vec::new() }
    }

    /// Number of entries.
    pub fn len(&self) -> (count: usize)
        ensures
            count == self.count(),
    {
        self.names.len()
    }

    /// Where the entry for `name` lies, if there is one.
    fn position(&self, name: &String) -> (position: Option<usize>)
        ensures
            position matches Some(i) ==> i < self.names@.len() && self.names@[i as int]@ == name@,
            position is None ==> !self.contains(name@),
    {
        let mut i: usize = 0;
        while i < self.names.len()
            invariant
                i <= self.names@.len(),
                forall|j: int| 0 <= j < i ==> (#[trigger] self.names@[j])@ != name@,
            decreases self.names@.len() - i,
        {
            if self.names[i] == *name {
                return Some(i);
            }
            i += 1;
        }
        None
    }

    /// The value that is entered for `name`, if there is one.
    pub fn get(&self, name: &String) -> (value: Option<&V>)
        ensures
            value is Some <==> self.contains(name@),
            value matches Some(v) ==> *v == self.entries()[name@],
    {
        proof {
            use_type_invariant(self);
        }
        match self.position(name) {
            Some(i) => {
                proof {
                    self.lemma_place(i as int);
                }
                Some(&self.values[i])
            },
            None => None,
        }
    }

    /// There is an entry for `name`.
    pub fn contains_key(&self, name: &String) -> (found: bool)
        ensures
            found == self.contains(name@),
    {
        self.position(name).is_some()
    }

    /// Enters `value` for `name`, in place of what was entered before.
    pub fn insert(&mut self, name: String, value: V)
        ensures
            final(self).names() =~= old(self).names().insert(name@),
            final(self).entries() =~= old(self).entries().insert(name@, value),
            forall|other: Seq<char>| #[trigger]
                final(self).contains(other) <==> old(self).contains(other) || other == name@,
            final(self).count() == if old(self).contains(name@) {
                old(self).count()
            } else {
                old(self).count() + 1
            },
    {
        proof {
            use_type_invariant(&*self);
        }
        let found = self.position(&name);
        let mut taken: Index<V> = Index { names: Vec::new(), values: Vec::new() };
        core::mem::swap(self, &mut taken);
        let Index { mut names, mut values } = taken;
        match found {
            Some(i) => {
                values.set(i, value);
            },
            None => {
                names.push(name);
                values.push(value);
            },
        }
        let ghost key = name@;
        let ghost before = *old(self);
        *self = Index { names, values };
        proof {
            assert forall|other: Seq<char>| self.contains(other) <==> (before.contains(other)
                || other == key) by {
                if before.contains(other) {
                    let i = choose|i: int|
                        0 <= i < before.names@.len() && (#[trigger] before.names@[i])@ == other;
                    assert(self.names@[i]@ == other);
                }
                if other == key {
                    match found {
                        Some(i) => {
                            assert(self.names@[i as int]@ == other);
                        },
                        None => {
                            assert(self.names@[before.names@.len() as int]@ == other);
                        },
                    }
                }
                if self.contains(other) {
                    let i = choose|i: int|
                        0 <= i < self.names@.len() && (#[trigger] self.names@[i])@ == other;
                    if i < before.names@.len() {
                        assert(before.names@[i]@ == other);
                    }
                }
            }
            assert forall|other: Seq<char>| self.contains(other) implies self.entries()[other]
                == before.entries().insert(key, value)[other] by {
                let i = self.place(other);
                self.lemma_place(i);
                if other != key {
                    assert(before.names@[i]@ == other);
                    before.lemma_place(i);
                }
            }
        }
    }

    /// Takes out the entry for `name`, if there is one.
    pub fn remove(&mut self, name: &String)
        ensures
            final(self).names() =~= old(self).names().remove(name@),
            final(self).entries() =~= old(self).entries().remove(name@),
            forall|other: Seq<char>| #[trigger]
                final(self).contains(other) <==> old(self).contains(other) && other != name@,
            final(self).count() == if old(self).contains(name@) {
                old(self).count() - 1
            } else {
                old(self).count() as int
            },
    {
        proof {
            use_type_invariant(&*self);
        }
        let found = self.position(name);
        let ghost before = *old(self);
        let ghost key = name@;
        match found {
            Some(i) => {
                let mut taken: Index<V> = Index { names: Vec::new(), values: Vec::new() };
                core::mem::swap(self, &mut taken);
                let Index { mut names, mut values } = taken;
                names.remove(i);
                values.remove(i);
                *self = Index { names, values };
                proof {
                    assert forall|other: Seq<char>| self.contains(other) <==> (before.contains(
                        other,
                    ) && other != key) by {
                        if before.contains(other) && other != key {
                            let j = choose|j: int|
                                0 <= j < before.names@.len() && (#[trigger] before.names@[j])@
                                    == other;
                            if j < i {
                                assert(self.names@[j]@ == other);
                            } else {
                                assert(self.names@[j - 1]@ == other);
                            }
                        }
                        if self.contains(other) {
                            let j = choose|j: int|
                                0 <= j < self.names@.len() && (#[trigger] self.names@[j])@ == other;
                            if j < i {
                                assert(before.names@[j]@ == other);
                            } else {
                                assert(before.names@[j + 1]@ == other);
                            }
                        }
                    }
                    assert forall|other: Seq<char>| self.contains(other)
                        implies self.entries()[other]
                        == before.entries().remove(key)[other] by {
                        let j = self.place(other);
                        self.lemma_place(j);
                        if j < i {
                            assert(before.names@[j]@ == other);
                            before.lemma_place(j);
                        } else {
                            assert(before.names@[j + 1]@ == other);
                            before.lemma_place(j + 1);
                        }
                    }
                }
            },
            None => {},
        }
    }
}

} // verus!
