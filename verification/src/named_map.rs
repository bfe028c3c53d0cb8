//! A small map from names to values, kept as a list of distinct names.

use vstd::prelude::*;

verus! {

/// A finite map keyed by name.
///
/// Entries are kept in the order in which their names were first inserted, and
/// no name occurs twice.
#[derive(Debug, PartialEq, Eq)]
pub struct NamedMap<V> {
    names: Vec<String>,
    values: Vec<V>,
}

/// Whether the names of `names` are pairwise different.
pub open spec fn distinct_names(names: Seq<Seq<char>>) -> bool {
    forall|i: int, j: int| 0 <= i < j < names.len() ==> names[i] != names[j]
}

/// The texts of a list of strings.
pub open spec fn texts(names: Seq<String>) -> Seq<Seq<char>> {
    Seq::new(names.len(), |i: int| names[i]@)
}

impl<T> View for NamedMap<T> {
    type V = Map<Seq<char>, T>;

    /// The map as a mathematical map from names to values.
    open spec fn view(&self) -> Map<Seq<char>, T> {
        Map::new(|name: Seq<char>| self.contains(name), |name: Seq<char>| self.value_of(name))
    }
}

impl<V> NamedMap<V> {
    #[verifier::type_invariant]
    spec fn well_formed(self) -> bool {
        &&& self.names.len() == self.values.len()
        &&& distinct_names(self.names())
    }

    /// The names of the entries, in entry order.
    pub closed spec fn names(self) -> Seq<Seq<char>> {
        texts(self.names@)
    }

    /// The values of the entries, in entry order.
    pub closed spec fn values(self) -> Seq<V> {
        self.values@
    }

    /// Whether an entry is named `name`.
    pub open spec fn contains(self, name: Seq<char>) -> bool {
        self.names().contains(name)
    }

    /// The value of the entry named `name`; arbitrary when there is none.
    pub open spec fn value_of(self, name: Seq<char>) -> V {
        self.values()[self.names().index_of(name)]
    }

    /// An empty map.
    pub fn new() -> (map: Self)
        ensures
            map.names() == Seq::<Seq<char>>::empty(),
            map.values() == Seq::<V>::empty(),
    {
        let map = NamedMap { names: Vec::new(), values: Vec::new() };
        assert(map.names() =~= Seq::<Seq<char>>::empty());
        map
    }

    /// The number of entries.
    pub fn len(&self) -> (n: usize)
        ensures
            n == self.names().len(),
            n == self.values().len(),
            distinct_names(self.names()),
    {
        proof {
            use_type_invariant(self);
        }
        self.names.len()
    }

    /// The name of entry `i`.
    pub fn name_at(&self, i: usize) -> (name: &String)
        requires
            i < self.names().len(),
        ensures
            name@ == self.names()[i as int],
    {
        &self.names[i]
    }

    /// The value of entry `i`.
    pub fn value_at(&self, i: usize) -> (value: &V)
        requires
            i < self.names().len(),
        ensures
            *value == self.values()[i as int],
    {
        proof {
            use_type_invariant(self);
        }
        &self.values[i]
    }

    fn find(&self, name: &String) -> (at: Option<usize>)
        ensures
            match at {
                Some(i) => i < self.names().len() && self.names()[i as int] == name@
                    && self.names().index_of(name@) == i,
                None => !self.names().contains(name@),
            },
    {
        proof {
            use_type_invariant(self);
        }
        let mut i: usize = 0;
        while i < self.names.len()
            invariant
                i <= self.names@.len(),
                self.names().len() == self.names@.len(),
                distinct_names(self.names()),
                forall|k: int| 0 <= k < i ==> self.names()[k] != name@,
            decreases self.names@.len() - i,
        {
            if self.names[i] == *name {
                proof {
                    let found = self.names().index_of(name@);
                    assert(self.names()[i as int] == name@);
                    assert(self.names().contains(name@));
                    assert(0 <= found < self.names().len() && self.names()[found] == name@);
                    assert(found == i) by {
                        if found < i {
                            assert(self.names()[found] != self.names()[i as int]);
                        } else if i < found {
                            assert(self.names()[i as int] != self.names()[found]);
                        }
                    }
                }
                return Some(i);
            }
            i += 1;
        }
        None
    }

    /// Looks up the value stored under `name`.
    pub fn get(&self, name: &str) -> (value: Option<&V>)
        ensures
            self.contains(name@) ==> value == Some(&self.value_of(name@)),
            !self.contains(name@) ==> value is None,
    {
        proof {
            use_type_invariant(self);
        }
        let key = name.to_owned();
        match self.find(&key) {
            Some(i) => Some(&self.values[i]),
            None => None,
        }
    }

    /// Stores `value` under `name` and hands the map back. A value already
    /// stored under that name is replaced and returned with it; otherwise the
    /// entry is added at the end.
    pub fn insert(self, name: String, value: V) -> (done: (Self, Option<V>))
        ensures
            self.contains(name@) ==> {
                &&& done.1 == Some(self.value_of(name@))
                &&& done.0.names() == self.names()
                &&& done.0.values() == self.values().update(self.names().index_of(name@), value)
            },
            !self.contains(name@) ==> {
                &&& done.1 is None
                &&& done.0.names() == self.names().push(name@)
                &&& done.0.values() == self.values().push(value)
            },
            done.0@ == self@.insert(name@, value),
    {
        proof {
            use_type_invariant(&self);
        }
        let found = self.find(&name);
        let ghost before = self;
        let NamedMap { mut names, mut values } = self;
        let replaced = match found {
            Some(i) => {
                let mut value = value;
                std::mem::swap(&mut values[i], &mut value);
                Some(value)
            },
            None => {
                names.push(name);
                values.push(value);
                None
            },
        };
        proof {
            assert(texts(names@) =~= if before.contains(name@) {
                before.names()
            } else {
                before.names().push(name@)
            });
            if !before.contains(name@) {
                assert forall|i: int, j: int| 0 <= i < j < texts(names@).len() implies texts(
                    names@,
                )[i] != texts(names@)[j] by {
                    if j == before.names().len() {
                        assert(before.names()[i] == texts(names@)[i]);
                        assert(before.names().contains(texts(names@)[i]));
                    } else {
                        assert(before.names()[i] != before.names()[j]);
                    }
                }
            }
        }
        let after = NamedMap { names, values };
        proof {
            lemma_insert_view(before, after, name@, value);
        }
        (after, replaced)
    }
}

fn copy_texts(texts: &Vec<String>) -> (copy: Vec<String>)
    ensures
        copy@ == texts@,
{
    let mut copy: Vec<String> = Vec::new();
    let mut i: usize = 0;
    while i < texts.len()
        invariant
            i <= texts@.len(),
            copy@ == texts@.take(i as int),
        decreases texts@.len() - i,
    {
        copy.push(texts[i].clone());
        assert(copy@ =~= texts@.take(i + 1));
        i += 1;
    }
    assert(texts@.take(i as int) =~= texts@);
    copy
}

impl NamedMap<String> {
    /// A copy of the map: the same names with the same texts, in the same
    /// order.
    pub fn duplicate(&self) -> (copy: Self)
        ensures
            copy.names() == self.names(),
            copy.values() == self.values(),
    {
        proof {
            use_type_invariant(self);
        }
        NamedMap { names: copy_texts(&self.names), values: copy_texts(&self.values) }
    }
}

/// Inserting a value makes it the value of its name and leaves every other
/// name as it was.
pub proof fn lemma_insert_view<V>(before: NamedMap<V>, after: NamedMap<V>, name: Seq<char>, value: V)
    requires
        distinct_names(before.names()),
        before.names().len() == before.values().len(),
        before.contains(name) ==> after.names() == before.names() && after.values()
            == before.values().update(before.names().index_of(name), value),
        !before.contains(name) ==> after.names() == before.names().push(name) && after.values()
            == before.values().push(value),
    ensures
        after@ == before@.insert(name, value),
        distinct_names(after.names()),
{
    let target = before@.insert(name, value);
    assert forall|k: Seq<char>| after@.contains_key(k) == target.contains_key(k) by {
        if !before.contains(name) {
            if after.names().contains(k) {
                let i = after.names().index_of(k);
                if i < before.names().len() {
                    assert(before.names()[i] == k);
                }
            }
            if before.names().contains(k) {
                let i = before.names().index_of(k);
                assert(after.names()[i] == k);
            }
            if k == name {
                assert(after.names()[before.names().len() as int] == name);
            }
        }
    }
    assert forall|k: Seq<char>| after@.contains_key(k) implies after@[k] == target[k] by {
        let i = after.names().index_of(k);
        assert(0 <= i < after.names().len() && after.names()[i] == k);
        if !before.contains(name) {
            if k == name {
                let last = before.names().len() as int;
                assert(after.names()[last] == name);
                if i != last {
                    assert(before.names()[i] == name);
                }
            } else {
                assert(i < before.names().len());
                assert(before.names()[i] == k);
                let j = before.names().index_of(k);
                assert(0 <= j < before.names().len() && before.names()[j] == k);
                if i != j {
                    if i < j {
                        assert(before.names()[i] != before.names()[j]);
                    } else {
                        assert(before.names()[j] != before.names()[i]);
                    }
                }
            }
        }
    }
    assert(after@ =~= target);
}

} // verus!
