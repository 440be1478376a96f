use vstd::prelude::*;

verus! {

/// An ordered sequence of name/value entries. Order is kept as entries are added, and a name
/// may occur more than once: lookups return the first entry with the name.
#[derive(Debug, PartialEq)]
pub struct OrderedMap<TKey, TValue> {
    pub entries: Vec<(TKey, TValue)>,
}

impl<TKey, TValue> OrderedMap<TKey, TValue> {
    /// The entries, in order.
    pub open spec fn view(&self) -> Seq<(TKey, TValue)> {
        self.entries@
    }

    /// An empty map.
    pub fn new() -> (r: Self)
        ensures
            r.view() == Seq::<(TKey, TValue)>::empty(),
    {
        OrderedMap { entries: Vec::new() }
    }

    /// A map holding the given entries, in the given order.
    pub fn from(entries: Vec<(TKey, TValue)>) -> (r: Self)
        ensures
            r.view() == entries@,
    {
        OrderedMap { entries }
    }

    /// Appends an entry after all the others, whether or not its name is already present.
    pub fn add(&mut self, key: TKey, value: TValue)
        ensures
            final(self).view() == old(self).view().push((key, value)),
    {
        self.entries.push((key, value));
    }

    /// The number of entries.
    pub fn len(&self) -> (r: usize)
        ensures
            r == self.view().len(),
    {
        self.entries.len()
    }
}

/// The names of the entries, in order.
pub open spec fn names<TValue>(entries: Seq<(String, TValue)>) -> Seq<Seq<char>> {
    entries.map_values(|e: (String, TValue)| e.0@)
}

impl<TValue> OrderedMap<String, TValue> {
    /// Position of the first entry named `key`.
    pub fn position(&self, key: &str) -> (r: Option<usize>)
        ensures
            match r {
                Some(i) => i < self.view().len() && self.view()[i as int].0@ == key@
                    && forall|j: int| 0 <= j < i ==> #[trigger] self.view()[j].0@ != key@,
                None => forall|j: int|
                    0 <= j < self.view().len() ==> #[trigger] self.view()[j].0@ != key@,
            },
    {
        let k = key.to_string();
        let mut i: usize = 0;
        while i < self.entries.len()
            invariant
                0 <= i <= self.entries.len(),
                k@ == key@,
                forall|j: int| 0 <= j < i ==> #[trigger] self.entries@[j].0@ != key@,
            decreases self.entries.len() - i,
        {
            if self.entries[i].0 == k {
                return Some(i);
            }
            i = i + 1;
        }
        None
    }

    /// The value of the first entry named `key`, if any.
    pub fn get(&self, key: &str) -> (r: Option<&TValue>)
        ensures
            match r {
                Some(v) => exists|i: int|
                    0 <= i < self.view().len() && self.view()[i].0@ == key@ && self.view()[i].1
                        == *v && forall|j: int| 0 <= j < i ==> #[trigger] self.view()[j].0@ != key@,
                None => forall|j: int|
                    0 <= j < self.view().len() ==> #[trigger] self.view()[j].0@ != key@,
            },
    {
        match self.position(key) {
            Some(i) => Some(&self.entries[i].1),
            None => None,
        }
    }

    /// Whether some entry is named `key`.
    pub fn contains_key(&self, key: &str) -> (r: bool)
        ensures
            r == exists|j: int| 0 <= j < self.view().len() && #[trigger] self.view()[j].0@ == key@,
    {
        match self.position(key) {
            Some(_) => true,
            None => false,
        }
    }
}

impl<TKey, TValue> Default for OrderedMap<TKey, TValue> {
    fn default() -> (r: Self)
        ensures
            r.view() == Seq::<(TKey, TValue)>::empty(),
    {
        OrderedMap::new()
    }
}

} // verus!
