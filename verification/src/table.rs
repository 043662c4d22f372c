//! A table of values under textual names, each name at most once, in the
//! order in which the names came.
//!
//! It stands where a hash map keyed by strings would: vstd specifies
//! `HashMap` only for keys whose hashing it models (integers, `bool` and
//! boxes of these), and `String` is not among them, so nothing could be
//! proved of such a map.

use vstd::prelude::*;

verus! {

/// Values under names. A name occurs at most once.
pub struct NamedTable<T> {
    names: Vec<String>,
    values: Vec<T>,
}

/// The position of a name in a list of names, if it is there.
pub open spec fn position_of(names: Seq<Seq<char>>, name: Seq<char>) -> Option<int> {
    if exists|i: int| 0 <= i < names.len() && names[i] == name {
        Some(choose|i: int| 0 <= i < names.len() && names[i] == name)
    } else {
        None
    }
}

/// The characters of each name of a list.
pub open spec fn name_views(names: Seq<String>) -> Seq<Seq<char>> {
    Seq::new(names.len(), |i: int| names[i]@)
}

impl<T> NamedTable<T> {
    /// The names, in the order in which they came.
    pub closed spec fn names(&self) -> Seq<Seq<char>> {
        name_views(self.names@)
    }

    /// The values, each at the position of its name.
    pub closed spec fn values(&self) -> Seq<T> {
        self.values@
    }

    /// Every name has its value, and no name occurs twice.
    pub open spec fn valid(&self) -> bool {
        &&& self.names().len() == self.values().len()
        &&& self.names().no_duplicates()
    }

    /// Whether the table holds a name.
    pub open spec fn contains(&self, name: Seq<char>) -> bool {
        self.names().contains(name)
    }

    /// The value under a name.
    pub open spec fn value_of(&self, name: Seq<char>) -> T
        recommends
            self.contains(name),
    {
        self.values()[position_of(self.names(), name)->0]
    }

    /// A table without entries.
    pub fn new() -> (table: NamedTable<T>)
        ensures
            table.valid(),
            table.names() == Seq::<Seq<char>>::empty(),
            table.values() == Seq::<T>::empty(),
    {
        let table = NamedTable { names: Vec::new(), values: Vec::new() };
        table
    }

    /// The number of entries.
    pub fn len(&self) -> (n: usize)
        requires
            self.valid(),
        ensures
            n == self.names().len(),
    {
        self.names.len()
    }

    /// Where a name stands in the table, if it is there.
    pub fn find(&self, name: &str) -> (at: Option<usize>)
        requires
            self.valid(),
        ensures
            match at {
                Some(i) => i < self.names().len() && self.names()[i as int] == name@
                    && position_of(self.names(), name@) == Some(i as int),
                None => !self.contains(name@) && position_of(self.names(), name@) is None,
            },
    {
        let wanted = crate::text::owned(name);
        let mut i: usize = 0;
        while i < self.names.len()
            invariant
                i <= self.names@.len(),
                wanted@ == name@,
                self.valid(),
                forall|k: int| 0 <= k < i ==> self.names()[k] != name@,
            decreases self.names@.len() - i,
        {
            if self.names[i] == wanted {
                assert(self.names()[i as int] == name@);
                return Some(i);
            }
            i = i + 1;
        }
        None
    }

    /// The value at a position.
    pub fn get(&self, at: usize) -> (value: &T)
        requires
            self.valid(),
            at < self.names().len(),
        ensures
            *value == self.values()[at as int],
    {
        &self.values[at]
    }

    /// The value at a position, to be changed in place.
    pub fn get_mut(&mut self, at: usize) -> (value: &mut T)
        requires
            old(self).valid(),
            at < old(self).names().len(),
        ensures
            *value == old(self).values()[at as int],
            final(self).names() == old(self).names(),
            final(self).values() == old(self).values().update(at as int, *final(value)),
    {
        &mut self.values[at]
    }

    /// Puts a value at a position, in place of the one that was there,
    /// which is handed back.
    pub fn replace(&mut self, at: usize, value: T) -> (previous: T)
        requires
            old(self).valid(),
            at < old(self).names().len(),
        ensures
            final(self).valid(),
            final(self).names() == old(self).names(),
            final(self).values() == old(self).values().update(at as int, value),
            previous == old(self).values()[at as int],
    {
        self.values.push(value);
        let previous = self.values.swap_remove(at);
        previous
    }

    /// Puts a value under a name: in place of the value that the name had,
    /// or as a new entry behind the others.
    pub fn insert(&mut self, name: String, value: T) -> (previous: Option<T>)
        requires
            old(self).valid(),
        ensures
            final(self).valid(),
            match position_of(old(self).names(), name@) {
                Some(i) => {
                    &&& previous == Some(old(self).values()[i])
                    &&& final(self).names() == old(self).names()
                    &&& final(self).values() == old(self).values().update(i, value)
                },
                None => {
                    &&& previous is None
                    &&& final(self).names() == old(self).names().push(name@)
                    &&& final(self).values() == old(self).values().push(value)
                },
            },
    {
        match self.find(name.as_str()) {
            Some(i) => Some(self.replace(i, value)),
            None => {
                self.names.push(name);
                self.values.push(value);
                assert(self.names() =~= old(self).names().push(name@));
                None
            },
        }
    }

    /// Takes the entry of a name out of the table, if there is one; the
    /// entries behind it move up.
    pub fn remove(&mut self, name: &str) -> (removed: Option<T>)
        requires
            old(self).valid(),
        ensures
            final(self).valid(),
            match position_of(old(self).names(), name@) {
                Some(i) => {
                    &&& removed == Some(old(self).values()[i])
                    &&& final(self).names() == old(self).names().remove(i)
                    &&& final(self).values() == old(self).values().remove(i)
                },
                None => {
                    &&& removed is None
                    &&& final(self).names() == old(self).names()
                    &&& final(self).values() == old(self).values()
                },
            },
            !final(self).contains(name@),
    {
        match self.find(name) {
            Some(i) => {
                self.names.remove(i);
                let value = self.values.remove(i);
                assert(self.names() =~= old(self).names().remove(i as int));
                assert(!self.names().contains(name@)) by {
                    if self.names().contains(name@) {
                        let k = choose|k: int| 0 <= k < self.names().len() && self.names()[k] == name@;
                        if k < i {
                            assert(old(self).names()[k] == name@);
                        } else {
                            assert(old(self).names()[k + 1] == name@);
                        }
                    }
                }
                Some(value)
            },
            None => None,
        }
    }

    /// The names, in the order in which they came.
    pub fn list_names(&self) -> (names: Vec<String>)
        requires
            self.valid(),
        ensures
            name_views(names@) == self.names(),
    {
        let mut names: Vec<String> = Vec::new();
        let mut i: usize = 0;
        while i < self.names.len()
            invariant
                i <= self.names@.len(),
                names@.len() == i,
                forall|k: int| 0 <= k < i ==> names@[k] == self.names@[k],
            decreases self.names@.len() - i,
        {
            names.push(self.names[i].clone());
            i = i + 1;
        }
        names
    }
}

/// In a list without duplicates, a name stands where it is found.
pub proof fn lemma_position_is(names: Seq<Seq<char>>, name: Seq<char>, at: int)
    requires
        names.no_duplicates(),
        0 <= at < names.len(),
        names[at] == name,
    ensures
        position_of(names, name) == Some(at),
{
}

} // verus!
