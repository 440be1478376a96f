use vstd::prelude::*;

verus! {

/// Whether some entry of `d` is named `key`.
pub open spec fn has_key<V>(d: Seq<(String, V)>, key: Seq<char>) -> bool {
    exists|i: int| 0 <= i < d.len() && #[trigger] d[i].0@ == key
}

/// No two entries have the same name.
pub open spec fn keys_unique<V>(d: Seq<(String, V)>) -> bool {
    forall|i: int, j: int| 0 <= i < j < d.len() ==> #[trigger] d[i].0@ != #[trigger] d[j].0@
}

/// `i` is the position of the first entry named `key`.
pub open spec fn first_key_at<V>(d: Seq<(String, V)>, key: Seq<char>, i: int) -> bool {
    &&& 0 <= i < d.len()
    &&& d[i].0@ == key
    &&& forall|j: int| 0 <= j < i ==> #[trigger] d[j].0@ != key
}

/// The position of the first entry named `key`; meaningful when there is one.
pub open spec fn key_index<V>(d: Seq<(String, V)>, key: Seq<char>) -> int {
    choose|i: int| first_key_at(d, key, i)
}

/// The value of the first entry named `key`, if any.
pub open spec fn value_of<V>(d: Seq<(String, V)>, key: Seq<char>) -> Option<V> {
    if has_key(d, key) {
        Some(d[key_index(d, key)].1)
    } else {
        None
    }
}

/// `d` with `key` set to `value`: the first entry of that name takes the new pair, or the pair
/// is appended when the name is new.
pub open spec fn put_entry<V>(d: Seq<(String, V)>, key: String, value: V) -> Seq<(String, V)> {
    if has_key(d, key@) {
        d.update(key_index(d, key@), (key, value))
    } else {
        d.push((key, value))
    }
}

/// The entries of an optional collection; none when absent.
pub open spec fn entries_or_empty<V>(d: Option<Vec<(String, V)>>) -> Seq<(String, V)> {
    match d {
        Some(v) => v@,
        None => Seq::empty(),
    }
}

/// A name that occurs has a first occurrence.
pub proof fn lemma_key_index<V>(d: Seq<(String, V)>, key: Seq<char>)
    requires
        has_key(d, key),
    ensures
        first_key_at(d, key, key_index(d, key)),
    decreases d.len(),
{
    let i = choose|i: int| 0 <= i < d.len() && #[trigger] d[i].0@ == key;
    if exists|j: int| 0 <= j < i && #[trigger] d[j].0@ == key {
        let j = choose|j: int| 0 <= j < i && #[trigger] d[j].0@ == key;
        let p = d.subrange(0, i);
        assert(p[j].0@ == key);
        lemma_key_index(p, key);
        let k = key_index(p, key);
        assert forall|m: int| 0 <= m < k implies #[trigger] d[m].0@ != key by {
            assert(d[m] == p[m]);
        }
        assert(d[k] == p[k]);
        assert(first_key_at(d, key, k));
    } else {
        assert(first_key_at(d, key, i));
    }
}

/// The first occurrence is unique.
pub proof fn lemma_first_key_unique<V>(d: Seq<(String, V)>, key: Seq<char>, i: int, j: int)
    requires
        first_key_at(d, key, i),
        first_key_at(d, key, j),
    ensures
        i == j,
{
}

/// Position of the first entry of `d` named `key`.
pub fn find_entry<V>(d: &Vec<(String, V)>, key: &str) -> (r: Option<usize>)
    ensures
        match r {
            Some(i) => first_key_at(d@, key@, i as int) && i as int == key_index(d@, key@),
            None => !has_key(d@, key@),
        },
{
    let k = key.to_string();
    let mut i: usize = 0;
    while i < d.len()
        invariant
            0 <= i <= d.len(),
            k@ == key@,
            forall|j: int| 0 <= j < i ==> #[trigger] d@[j].0@ != key@,
        decreases d.len() - i,
    {
        if d[i].0 == k {
            proof {
                lemma_key_index(d@, key@);
                lemma_first_key_unique(d@, key@, i as int, key_index(d@, key@));
            }
            return Some(i);
        }
        i = i + 1;
    }
    None
}

/// Sets `key` to `value`: replaces the value of the first entry of that name, or appends the
/// pair when the name is new.
pub fn insert_entry<V>(d: &mut Vec<(String, V)>, key: String, value: V)
    ensures
        final(d)@ == put_entry(old(d)@, key, value),
{
    match find_entry(d, key.as_str()) {
        Some(i) => {
            d.set(i, (key, value));
        },
        None => {
            d.push((key, value));
        },
    }
}

/// Sets `key` to `value` in an optional collection, creating it when absent.
pub fn insert_optional_entry<V>(d: &mut Option<Vec<(String, V)>>, key: String, value: V)
    ensures
        (*final(d)) is Some,
        entries_or_empty(*final(d)) == put_entry(entries_or_empty(*old(d)), key, value),
{
    let mut entries = match d.take() {
        Some(v) => v,
        None => Vec::new(),
    };
    insert_entry(&mut entries, key, value);
    *d = Some(entries);
}

} // verus!
