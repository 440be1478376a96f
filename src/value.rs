use vstd::prelude::*;
use crate::entries::{find_entry, value_of};

verus! {

/// A node of the structured-document tree that the wire formats (JSON, YAML) are read into and
/// written from: a scalar, an array, or an object whose fields keep their order.
#[derive(Debug, PartialEq)]
pub enum AnyValue {
    Null,
    Bool(bool),
    /// A negative or signed integer.
    Int(i64),
    /// A non-negative integer.
    UInt(u64),
    /// A floating-point number, held as its IEEE-754 bit pattern.
    Float(u64),
    String(String),
    Array(Vec<AnyValue>),
    Object(Vec<(String, AnyValue)>),
}

/// `r` is a copy of `v`: the same tree.
pub open spec fn copy_of(r: AnyValue, v: AnyValue) -> bool {
    same_tree(v, r)
}

/// `a` and `b` are the same tree: the same scalars, and arrays and objects whose items, field
/// names and field values are the same trees, in the same order.
pub open spec fn same_tree(a: AnyValue, b: AnyValue) -> bool
    decreases a,
{
    match a {
        AnyValue::Array(x) => b is Array && same_items(x@, b->Array_0@),
        AnyValue::Object(x) => b is Object && same_fields(x@, b->Object_0@),
        _ => a == b,
    }
}

/// Two sequences of trees, item by item the same.
pub open spec fn same_items(x: Seq<AnyValue>, y: Seq<AnyValue>) -> bool
    decreases x,
{
    if x.len() == 0 {
        y.len() == 0
    } else {
        y.len() == x.len() && same_items(x.drop_last(), y.drop_last()) && same_tree(x.last(), y.last())
    }
}

/// Two sequences of fields, field by field with the same name and the same tree.
pub open spec fn same_fields(x: Seq<(String, AnyValue)>, y: Seq<(String, AnyValue)>) -> bool
    decreases x,
{
    if x.len() == 0 {
        y.len() == 0
    } else {
        y.len() == x.len() && same_fields(x.drop_last(), y.drop_last()) && x.last().0@ == y.last().0@
            && same_tree(x.last().1, y.last().1)
    }
}

/// Being the same tree carries over: if `a` is `b` and `b` is `c`, then `a` is `c`.
pub proof fn lemma_same_tree_trans(a: AnyValue, b: AnyValue, c: AnyValue)
    requires
        same_tree(a, b),
        same_tree(b, c),
    ensures
        same_tree(a, c),
    decreases a,
{
    match a {
        AnyValue::Array(x) => {
            lemma_same_items_trans(x@, b->Array_0@, c->Array_0@);
        },
        AnyValue::Object(x) => {
            lemma_same_fields_trans(x@, b->Object_0@, c->Object_0@);
        },
        _ => {},
    }
}

/// `same_items` carries over.
pub proof fn lemma_same_items_trans(x: Seq<AnyValue>, y: Seq<AnyValue>, z: Seq<AnyValue>)
    requires
        same_items(x, y),
        same_items(y, z),
    ensures
        same_items(x, z),
    decreases x,
{
    if x.len() > 0 {
        lemma_same_items_trans(x.drop_last(), y.drop_last(), z.drop_last());
        lemma_same_tree_trans(x.last(), y.last(), z.last());
    }
}

/// `same_fields` carries over.
pub proof fn lemma_same_fields_trans(x: Seq<(String, AnyValue)>, y: Seq<(String, AnyValue)>, z: Seq<(String, AnyValue)>)
    requires
        same_fields(x, y),
        same_fields(y, z),
    ensures
        same_fields(x, z),
    decreases x,
{
    if x.len() > 0 {
        lemma_same_fields_trans(x.drop_last(), y.drop_last(), z.drop_last());
        lemma_same_tree_trans(x.last().1, y.last().1, z.last().1);
    }
}

/// A value that is neither an array nor an object.
pub open spec fn is_scalar(v: AnyValue) -> bool {
    !(v is Array) && !(v is Object)
}

/// Where `v` is an array or object, every scalar item of it is the same item of `r`.
pub open spec fn scalars_kept(r: AnyValue, v: AnyValue) -> bool {
    match v {
        AnyValue::Array(items) => forall|j: int|
            0 <= j < items@.len() && is_scalar(#[trigger] items@[j]) ==> r->Array_0@[j] == items@[j],
        AnyValue::Object(fields) => forall|j: int|
            0 <= j < fields@.len() && is_scalar(#[trigger] fields@[j].1) ==> r->Object_0@[j].1 == fields@[j].1,
        _ => true,
    }
}

impl AnyValue {
    /// A copy of the whole tree.
    pub fn deep_clone(&self) -> (r: AnyValue)
        ensures
            copy_of(r, *self),
            scalars_kept(r, *self),
        decreases self,
    {
        match self {
            AnyValue::Null => AnyValue::Null,
            AnyValue::Bool(b) => AnyValue::Bool(*b),
            AnyValue::Int(n) => AnyValue::Int(*n),
            AnyValue::UInt(n) => AnyValue::UInt(*n),
            AnyValue::Float(n) => AnyValue::Float(*n),
            AnyValue::String(s) => AnyValue::String(s.clone()),
            AnyValue::Array(items) => {
                let mut out: Vec<AnyValue> = Vec::new();
                let mut i: usize = 0;
                while i < items.len()
                    invariant
                        0 <= i <= items.len(),
                        out@.len() == i,
                        *self == AnyValue::Array(*items),
                        forall|j: int| 0 <= j < i && is_scalar(#[trigger] items@[j]) ==> out@[j] == items@[j],
                        same_items(items@.subrange(0, i as int), out@),
                    decreases items.len() - i,
                {
                    proof {
                        assert(decreases_to!(*self => self->Array_0));
                        assert(decreases_to!(*items => items@));
                        assert(decreases_to!(items@ => items@[i as int]));
                    }
                    let c = items[i].deep_clone();
                    let ghost before = out@;
                    out.push(c);
                    proof {
                        let p = items@.subrange(0, i + 1);
                        assert(p.drop_last() =~= items@.subrange(0, i as int));
                        assert(out@.drop_last() =~= before);
                        assert(p.last() == items@[i as int]);
                    }
                    i = i + 1;
                }
                proof {
                    assert(items@.subrange(0, i as int) =~= items@);
                }
                AnyValue::Array(out)
            },
            AnyValue::Object(fields) => {
                let mut out: Vec<(String, AnyValue)> = Vec::new();
                let mut i: usize = 0;
                while i < fields.len()
                    invariant
                        0 <= i <= fields.len(),
                        out@.len() == i,
                        forall|j: int| 0 <= j < i ==> #[trigger] out@[j].0@ == fields@[j].0@,
                        *self == AnyValue::Object(*fields),
                        forall|j: int| 0 <= j < i && is_scalar(#[trigger] fields@[j].1) ==> out@[j].1 == fields@[j].1,
                        same_fields(fields@.subrange(0, i as int), out@),
                    decreases fields.len() - i,
                {
                    proof {
                        assert(decreases_to!(*self => self->Object_0));
                        assert(decreases_to!(*fields => fields@));
                        assert(decreases_to!(fields@ => fields@[i as int]));
                        assert(decreases_to!(fields@[i as int] => fields@[i as int].1));
                    }
                    let c = fields[i].1.deep_clone();
                    let ghost before = out@;
                    out.push((fields[i].0.clone(), c));
                    proof {
                        let p = fields@.subrange(0, i + 1);
                        assert(p.drop_last() =~= fields@.subrange(0, i as int));
                        assert(out@.drop_last() =~= before);
                        assert(p.last() == fields@[i as int]);
                    }
                    i = i + 1;
                }
                proof {
                    assert(fields@.subrange(0, i as int) =~= fields@);
                }
                AnyValue::Object(out)
            },
        }
    }
}

/// The value of the first field named `key`, if any.
pub fn get_field<'a>(fields: &'a Vec<(String, AnyValue)>, key: &str) -> (r: Option<&'a AnyValue>)
    ensures
        match r {
            Some(v) => value_of(fields@, key@) == Some(*v),
            None => value_of(fields@, key@).is_none(),
        },
{
    match find_entry(fields, key) {
        Some(i) => Some(&fields[i].1),
        None => None,
    }
}

} // verus!
