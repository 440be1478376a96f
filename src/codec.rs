use vstd::prelude::*;
use crate::entries::{
    find_entry, first_key_at, has_key, key_index, lemma_first_key_unique, lemma_key_index, value_of,
};
use crate::value::{AnyValue, copy_of, same_fields};

verus! {

/// Why a document tree could not be read into the model.
#[derive(Debug, PartialEq)]
pub enum DecodeError {
    /// The object has none of the keys that mark a task kind.
    NoShapeMatched,
    /// A required field is absent; it holds the field's key.
    MissingField(String),
    /// A field holds a value of the wrong shape; it holds the field's key.
    WrongType(String),
}

/// The key/value pairs of an object, with the keys as text.
pub open spec fn pairs(f: Seq<(String, AnyValue)>) -> Seq<(Seq<char>, AnyValue)> {
    f.map_values(|e: (String, AnyValue)| (e.0@, e.1))
}

/// The value of the first pair with key `k`, if any.
pub open spec fn lookup(p: Seq<(Seq<char>, AnyValue)>, k: Seq<char>) -> Option<AnyValue>
    decreases p.len(),
{
    if p.len() == 0 {
        None
    } else if p[0].0 == k {
        Some(p[0].1)
    } else {
        lookup(p.drop_first(), k)
    }
}

/// Looking a key up in fields is looking it up in their pairs.
pub proof fn lemma_value_of_lookup(f: Seq<(String, AnyValue)>, k: Seq<char>)
    ensures
        value_of(f, k) == lookup(pairs(f), k),
    decreases f.len(),
{
    if f.len() == 0 {
        assert(!has_key(f, k));
    } else {
        assert(pairs(f)[0] == (f[0].0@, f[0].1));
        if f[0].0@ == k {
            assert(first_key_at(f, k, 0));
            lemma_key_index(f, k);
            lemma_first_key_unique(f, k, 0, key_index(f, k));
        } else {
            let g = f.drop_first();
            lemma_value_of_lookup(g, k);
            assert(pairs(f).drop_first() =~= pairs(g));
            if has_key(g, k) {
                lemma_key_index(g, k);
                let j = key_index(g, k);
                assert(first_key_at(f, k, j + 1)) by {
                    assert forall|m: int| 0 <= m < j + 1 implies #[trigger] f[m].0@ != k by {
                        if m > 0 {
                            assert(f[m] == g[m - 1]);
                        }
                    }
                }
                lemma_key_index(f, k);
                lemma_first_key_unique(f, k, j + 1, key_index(f, k));
            } else {
                assert(!has_key(f, k)) by {
                    if has_key(f, k) {
                        let i = choose|i: int| 0 <= i < f.len() && #[trigger] f[i].0@ == k;
                        assert(g[i - 1] == f[i]);
                    }
                }
            }
        }
    }
}

/// Looking a key up in two sequences of pairs, one after the other.
pub proof fn lemma_lookup_concat(a: Seq<(Seq<char>, AnyValue)>, b: Seq<(Seq<char>, AnyValue)>, k: Seq<char>)
    ensures
        lookup(a + b, k) == if lookup(a, k) is Some { lookup(a, k) } else { lookup(b, k) },
    decreases a.len(),
{
    if a.len() == 0 {
        assert(a + b =~= b);
    } else {
        assert((a + b)[0] == a[0]);
        assert((a + b).drop_first() =~= a.drop_first() + b);
        lemma_lookup_concat(a.drop_first(), b, k);
    }
}

/// Every key of `f` is in `allowed`.
pub open spec fn keys_within(f: Seq<(String, AnyValue)>, allowed: Set<Seq<char>>) -> bool {
    forall|i: int| 0 <= i < f.len() ==> allowed.contains(#[trigger] f[i].0@)
}

/// The fields of a value that is an object; none otherwise.
pub open spec fn fields_of(v: AnyValue) -> Seq<(String, AnyValue)> {
    match v {
        AnyValue::Object(f) => f@,
        _ => Seq::empty(),
    }
}

/// What an optional text field reads as: absent or null is `None`, a string is itself, and
/// anything else is an error.
pub open spec fn opt_string_field(f: Seq<(String, AnyValue)>, key: Seq<char>) -> Result<Option<String>, ()> {
    match value_of(f, key) {
        None => Ok(None),
        Some(AnyValue::Null) => Ok(None),
        Some(AnyValue::String(s)) => Ok(Some(s)),
        Some(_) => Err(()),
    }
}

/// What an optional unsigned field reads as.
pub open spec fn opt_u64_field(f: Seq<(String, AnyValue)>, key: Seq<char>) -> Result<Option<u64>, ()> {
    match value_of(f, key) {
        None => Ok(None),
        Some(AnyValue::Null) => Ok(None),
        Some(AnyValue::UInt(n)) => Ok(Some(n)),
        Some(_) => Err(()),
    }
}

/// What an optional boolean field reads as.
pub open spec fn opt_bool_field(f: Seq<(String, AnyValue)>, key: Seq<char>) -> Result<Option<bool>, ()> {
    match value_of(f, key) {
        None => Ok(None),
        Some(AnyValue::Null) => Ok(None),
        Some(AnyValue::Bool(b)) => Ok(Some(b)),
        Some(_) => Err(()),
    }
}

/// The error for a field of the wrong shape.
pub fn wrong_type(key: &str) -> (r: DecodeError)
    ensures
        r matches DecodeError::WrongType(k) && k@ == key@,
{
    DecodeError::WrongType(key.to_string())
}

/// The error for an absent required field.
pub fn missing(key: &str) -> (r: DecodeError)
    ensures
        r matches DecodeError::MissingField(k) && k@ == key@,
{
    DecodeError::MissingField(key.to_string())
}

/// Reads an optional text field.
pub fn read_opt_string(f: &Vec<(String, AnyValue)>, key: &str) -> (r: Result<Option<String>, DecodeError>)
    ensures
        match opt_string_field(f@, key@) {
            Ok(o) => r == Ok::<Option<String>, DecodeError>(o),
            Err(_) => r matches Err(DecodeError::WrongType(k)) && k@ == key@,
        },
{
    match find_entry(f, key) {
        None => Ok(None),
        Some(i) => match &f[i].1 {
            AnyValue::Null => Ok(None),
            AnyValue::String(s) => Ok(Some(s.clone())),
            _ => Err(wrong_type(key)),
        },
    }
}

/// Reads a required text field.
pub fn read_string(f: &Vec<(String, AnyValue)>, key: &str) -> (r: Result<String, DecodeError>)
    ensures
        match value_of(f@, key@) {
            Some(AnyValue::String(s)) => r == Ok::<String, DecodeError>(s),
            None => r matches Err(DecodeError::MissingField(k)) && k@ == key@,
            Some(_) => r matches Err(DecodeError::WrongType(k)) && k@ == key@,
        },
{
    match find_entry(f, key) {
        None => Err(missing(key)),
        Some(i) => match &f[i].1 {
            AnyValue::String(s) => Ok(s.clone()),
            _ => Err(wrong_type(key)),
        },
    }
}

/// Reads an optional unsigned field.
pub fn read_opt_u64(f: &Vec<(String, AnyValue)>, key: &str) -> (r: Result<Option<u64>, DecodeError>)
    ensures
        match opt_u64_field(f@, key@) {
            Ok(o) => r == Ok::<Option<u64>, DecodeError>(o),
            Err(_) => r matches Err(DecodeError::WrongType(k)) && k@ == key@,
        },
{
    match find_entry(f, key) {
        None => Ok(None),
        Some(i) => match &f[i].1 {
            AnyValue::Null => Ok(None),
            AnyValue::UInt(n) => Ok(Some(*n)),
            _ => Err(wrong_type(key)),
        },
    }
}

/// Reads an optional boolean field.
pub fn read_opt_bool(f: &Vec<(String, AnyValue)>, key: &str) -> (r: Result<Option<bool>, DecodeError>)
    ensures
        match opt_bool_field(f@, key@) {
            Ok(o) => r == Ok::<Option<bool>, DecodeError>(o),
            Err(_) => r matches Err(DecodeError::WrongType(k)) && k@ == key@,
        },
{
    match find_entry(f, key) {
        None => Ok(None),
        Some(i) => match &f[i].1 {
            AnyValue::Null => Ok(None),
            AnyValue::Bool(b) => Ok(Some(*b)),
            _ => Err(wrong_type(key)),
        },
    }
}

/// Reads an optional field of any shape, as a copy; a null counts as absent.
pub fn read_opt_value(f: &Vec<(String, AnyValue)>, key: &str) -> (r: Option<AnyValue>)
    ensures
        match value_of(f@, key@) {
            None => r is None,
            Some(AnyValue::Null) => r is None,
            Some(v) => r is Some && copy_of(r->0, v),
        },
{
    match find_entry(f, key) {
        None => None,
        Some(i) => match &f[i].1 {
            AnyValue::Null => None,
            v => Some(v.deep_clone()),
        },
    }
}

/// Every item is a string.
pub open spec fn all_strings(items: Seq<AnyValue>) -> bool {
    forall|i: int| 0 <= i < items.len() ==> (#[trigger] items[i]) is String
}

/// Every field's value is a string.
pub open spec fn all_string_values(items: Seq<(String, AnyValue)>) -> bool {
    forall|i: int| 0 <= i < items.len() ==> (#[trigger] items[i]).1 is String
}

/// An optional list of strings that reads: absent, null, or an array of strings.
pub open spec fn string_list_field_ok(f: Seq<(String, AnyValue)>, key: Seq<char>) -> bool {
    match value_of(f, key) {
        None => true,
        Some(AnyValue::Null) => true,
        Some(AnyValue::Array(items)) => all_strings(items@),
        _ => false,
    }
}

/// An optional object of strings that reads: absent, null, or an object whose values are strings.
pub open spec fn string_pairs_field_ok(f: Seq<(String, AnyValue)>, key: Seq<char>) -> bool {
    match value_of(f, key) {
        None => true,
        Some(AnyValue::Null) => true,
        Some(AnyValue::Object(items)) => all_string_values(items@),
        _ => false,
    }
}

/// Reads an optional list of strings.
pub fn read_opt_string_list(f: &Vec<(String, AnyValue)>, key: &str) -> (r: Result<Option<Vec<String>>, DecodeError>)
    ensures
        value_of(f@, key@) is None ==> r == Ok::<Option<Vec<String>>, DecodeError>(None),
        r matches Ok(Some(l)) ==> value_of(f@, key@) matches Some(AnyValue::Array(items))
            && l@.len() == items@.len()
            && forall|i: int| 0 <= i < l@.len() ==> items@[i] == AnyValue::String(#[trigger] l@[i]),
        r matches Ok(None) ==> value_of(f@, key@) is None || value_of(f@, key@) == Some(AnyValue::Null),
        string_list_field_ok(f@, key@) ==> r is Ok,
{
    match find_entry(f, key) {
        None => Ok(None),
        Some(i) => match &f[i].1 {
            AnyValue::Null => Ok(None),
            AnyValue::Array(items) => {
                let mut out: Vec<String> = Vec::new();
                let mut j: usize = 0;
                while j < items.len()
                    invariant
                        0 <= j <= items.len(),
                        out@.len() == j,
                        has_key(f@, key@),
                        value_of(f@, key@) == Some(AnyValue::Array(*items)),
                        forall|m: int| 0 <= m < j ==> items@[m] == AnyValue::String(#[trigger] out@[m]),
                    decreases items.len() - j,
                {
                    match &items[j] {
                        AnyValue::String(s) => out.push(s.clone()),
                        _ => {
                            return Err(wrong_type(key));
                        },
                    }
                    j = j + 1;
                }
                Ok(Some(out))
            },
            _ => Err(wrong_type(key)),
        },
    }
}

/// Reads an optional object whose values are strings.
pub fn read_opt_string_pairs(f: &Vec<(String, AnyValue)>, key: &str) -> (r: Result<Option<Vec<(String, String)>>, DecodeError>)
    ensures
        value_of(f@, key@) is None ==> r == Ok::<Option<Vec<(String, String)>>, DecodeError>(None),
        r matches Ok(Some(l)) ==> value_of(f@, key@) matches Some(AnyValue::Object(items))
            && l@.len() == items@.len()
            && forall|i: int| 0 <= i < l@.len() ==> items@[i] == (#[trigger] l@[i].0, AnyValue::String(l@[i].1)),
        r matches Ok(None) ==> value_of(f@, key@) is None || value_of(f@, key@) == Some(AnyValue::Null),
        string_pairs_field_ok(f@, key@) ==> r is Ok,
{
    match find_entry(f, key) {
        None => Ok(None),
        Some(i) => match &f[i].1 {
            AnyValue::Null => Ok(None),
            AnyValue::Object(items) => {
                let mut out: Vec<(String, String)> = Vec::new();
                let mut j: usize = 0;
                while j < items.len()
                    invariant
                        0 <= j <= items.len(),
                        out@.len() == j,
                        has_key(f@, key@),
                        value_of(f@, key@) == Some(AnyValue::Object(*items)),
                        forall|m: int| 0 <= m < j ==> items@[m] == (#[trigger] out@[m].0, AnyValue::String(out@[m].1)),
                    decreases items.len() - j,
                {
                    match &items[j].1 {
                        AnyValue::String(s) => out.push((items[j].0.clone(), s.clone())),
                        _ => {
                            return Err(wrong_type(key));
                        },
                    }
                    j = j + 1;
                }
                Ok(Some(out))
            },
            _ => Err(wrong_type(key)),
        },
    }
}

/// Reads an optional object of values of any shape, as copies.
pub fn read_opt_value_pairs(f: &Vec<(String, AnyValue)>, key: &str) -> (r: Result<Option<Vec<(String, AnyValue)>>, DecodeError>)
    ensures
        value_of(f@, key@) is None ==> r == Ok::<Option<Vec<(String, AnyValue)>>, DecodeError>(None),
        r matches Ok(Some(l)) ==> value_of(f@, key@) matches Some(v) && copy_of(AnyValue::Object(l), v),
        value_of(f@, key@) matches Some(AnyValue::Object(_)) ==> r is Ok && r->Ok_0 is Some,
{
    match find_entry(f, key) {
        None => Ok(None),
        Some(i) => match &f[i].1 {
            AnyValue::Null => Ok(None),
            AnyValue::Object(_) => match f[i].1.deep_clone() {
                AnyValue::Object(l) => Ok(Some(l)),
                _ => Err(wrong_type(key)),
            },
            _ => Err(wrong_type(key)),
        },
    }
}

/// Appends a field.
pub fn put(out: &mut Vec<(String, AnyValue)>, key: &str, v: AnyValue)
    ensures
        final(out)@.len() >= old(out)@.len(),
        forall|i: int| 0 <= i < old(out)@.len() ==> #[trigger] final(out)@[i] == old(out)@[i],
        forall|i: int| old(out)@.len() <= i < final(out)@.len() ==> #[trigger] final(out)@[i].0@ == key@,
        final(out)@.len() == old(out)@.len() + 1,
        final(out)@.drop_last() == old(out)@,
        final(out)@.last().0@ == key@,
        final(out)@.last().1 == v,
{
    out.push((key.to_string(), v));
    proof {
        assert(final(out)@.drop_last() =~= old(out)@);
    }
}

/// The entries that an optional text field adds: one when present.
pub open spec fn opt_string_pairs(key: Seq<char>, o: Option<String>) -> Seq<(Seq<char>, AnyValue)> {
    match o {
        Some(s) => seq![(key, AnyValue::String(s))],
        None => Seq::empty(),
    }
}

/// Appends an optional text field, when present.
pub fn put_opt_string(out: &mut Vec<(String, AnyValue)>, key: &str, o: &Option<String>)
    ensures
        final(out)@.len() >= old(out)@.len(),
        forall|i: int| 0 <= i < old(out)@.len() ==> #[trigger] final(out)@[i] == old(out)@[i],
        forall|i: int| old(out)@.len() <= i < final(out)@.len() ==> #[trigger] final(out)@[i].0@ == key@,
        pairs(final(out)@) == pairs(old(out)@) + opt_string_pairs(key@, *o),
{
    match o {
        Some(s) => {
            put(out, key, AnyValue::String(s.clone()));
            proof {
                assert(pairs(final(out)@) =~= pairs(old(out)@) + opt_string_pairs(key@, *o));
            }
        },
        None => {
            proof {
                assert(pairs(final(out)@) =~= pairs(old(out)@) + opt_string_pairs(key@, *o));
            }
        },
    }
}

/// The entries that an optional unsigned field adds: one when present.
pub open spec fn opt_u64_pairs(key: Seq<char>, o: Option<u64>) -> Seq<(Seq<char>, AnyValue)> {
    match o {
        Some(n) => seq![(key, AnyValue::UInt(n))],
        None => Seq::empty(),
    }
}

/// Appends an optional unsigned field, when present.
pub fn put_opt_u64(out: &mut Vec<(String, AnyValue)>, key: &str, o: Option<u64>)
    ensures
        final(out)@.len() >= old(out)@.len(),
        forall|i: int| 0 <= i < old(out)@.len() ==> #[trigger] final(out)@[i] == old(out)@[i],
        forall|i: int| old(out)@.len() <= i < final(out)@.len() ==> #[trigger] final(out)@[i].0@ == key@,
        pairs(final(out)@) == pairs(old(out)@) + opt_u64_pairs(key@, o),
{
    match o {
        Some(n) => {
            put(out, key, AnyValue::UInt(n));
            proof {
                assert(pairs(final(out)@) =~= pairs(old(out)@) + opt_u64_pairs(key@, o));
            }
        },
        None => {
            proof {
                assert(pairs(final(out)@) =~= pairs(old(out)@) + opt_u64_pairs(key@, o));
            }
        },
    }
}

/// The entries that an optional boolean field adds: one when present.
pub open spec fn opt_bool_pairs(key: Seq<char>, o: Option<bool>) -> Seq<(Seq<char>, AnyValue)> {
    match o {
        Some(b) => seq![(key, AnyValue::Bool(b))],
        None => Seq::empty(),
    }
}

/// Appends an optional boolean field, when present.
pub fn put_opt_bool(out: &mut Vec<(String, AnyValue)>, key: &str, o: Option<bool>)
    ensures
        final(out)@.len() >= old(out)@.len(),
        forall|i: int| 0 <= i < old(out)@.len() ==> #[trigger] final(out)@[i] == old(out)@[i],
        forall|i: int| old(out)@.len() <= i < final(out)@.len() ==> #[trigger] final(out)@[i].0@ == key@,
        pairs(final(out)@) == pairs(old(out)@) + opt_bool_pairs(key@, o),
{
    match o {
        Some(b) => {
            put(out, key, AnyValue::Bool(b));
            proof {
                assert(pairs(final(out)@) =~= pairs(old(out)@) + opt_bool_pairs(key@, o));
            }
        },
        None => {
            proof {
                assert(pairs(final(out)@) =~= pairs(old(out)@) + opt_bool_pairs(key@, o));
            }
        },
    }
}

/// Appends an optional field of any shape, as a copy, when present.
pub fn put_opt_value(out: &mut Vec<(String, AnyValue)>, key: &str, o: &Option<AnyValue>)
    ensures
        final(out)@.len() >= old(out)@.len(),
        forall|i: int| 0 <= i < old(out)@.len() ==> #[trigger] final(out)@[i] == old(out)@[i],
        forall|i: int| old(out)@.len() <= i < final(out)@.len() ==> #[trigger] final(out)@[i].0@ == key@,
        o is None ==> final(out)@ == old(out)@,
        o is Some ==> final(out)@.len() == old(out)@.len() + 1 && final(out)@.drop_last() == old(out)@
            && final(out)@.last().0@ == key@ && copy_of(final(out)@.last().1, o->0),
{
    match o {
        Some(v) => put(out, key, v.deep_clone()),
        None => {},
    }
}

/// A list of strings as an array.
pub fn string_list_value(l: &Vec<String>) -> (r: AnyValue)
    ensures
        r is Array && r->Array_0@.len() == l@.len(),
        forall|i: int| 0 <= i < l@.len() ==> r->Array_0@[i] == AnyValue::String(#[trigger] l@[i]),
{
    let mut out: Vec<AnyValue> = Vec::new();
    let mut i: usize = 0;
    while i < l.len()
        invariant
            0 <= i <= l.len(),
            out@.len() == i,
            forall|m: int| 0 <= m < i ==> out@[m] == AnyValue::String(#[trigger] l@[m]),
        decreases l.len() - i,
    {
        out.push(AnyValue::String(l[i].clone()));
        i = i + 1;
    }
    AnyValue::Array(out)
}

/// Pairs of strings as an object.
pub fn string_pairs_value(l: &Vec<(String, String)>) -> (r: AnyValue)
    ensures
        r is Object && r->Object_0@.len() == l@.len(),
        forall|i: int| 0 <= i < l@.len() ==> r->Object_0@[i] == (#[trigger] l@[i].0, AnyValue::String(l@[i].1)),
{
    let mut out: Vec<(String, AnyValue)> = Vec::new();
    let mut i: usize = 0;
    while i < l.len()
        invariant
            0 <= i <= l.len(),
            out@.len() == i,
            forall|m: int| 0 <= m < i ==> out@[m] == (#[trigger] l@[m].0, AnyValue::String(l@[m].1)),
        decreases l.len() - i,
    {
        out.push((l[i].0.clone(), AnyValue::String(l[i].1.clone())));
        i = i + 1;
    }
    AnyValue::Object(out)
}

/// Pairs of values as an object of copies.
pub fn value_pairs_value(l: &Vec<(String, AnyValue)>) -> (r: AnyValue)
    ensures
        copy_of(r, AnyValue::Object(*l)),
{
    let mut out: Vec<(String, AnyValue)> = Vec::new();
    let mut i: usize = 0;
    while i < l.len()
        invariant
            0 <= i <= l.len(),
            out@.len() == i,
            same_fields(l@.subrange(0, i as int), out@),
        decreases l.len() - i,
    {
        let c = l[i].1.deep_clone();
        let ghost before = out@;
        out.push((l[i].0.clone(), c));
        proof {
            let p = l@.subrange(0, i + 1);
            assert(p.drop_last() =~= l@.subrange(0, i as int));
            assert(out@.drop_last() =~= before);
            assert(p.last() == l@[i as int]);
        }
        i = i + 1;
    }
    proof {
        assert(l@.subrange(0, i as int) =~= l@);
    }
    AnyValue::Object(out)
}

} // verus!
