use vstd::prelude::*;
use crate::codec::{
    DecodeError, lemma_lookup_concat, lemma_value_of_lookup, lookup, opt_u64_field, opt_u64_pairs,
    pairs, put_opt_u64, read_opt_u64, read_string, wrong_type,
};
use crate::duration::{Duration, OneOfDurationOrIso8601Expression};
use crate::entries::{find_entry, value_of};
use crate::timeout::{OneOfTimeoutDefinitionOrReference, TimeoutDefinition};
use crate::value::AnyValue;

verus! {

/// The pairs of a duration's object: each present part under its unit's name, in the order
/// days, hours, minutes, seconds, milliseconds.
pub open spec fn duration_pairs(d: Duration) -> Seq<(Seq<char>, AnyValue)> {
    opt_u64_pairs("days"@, d.days) + opt_u64_pairs("hours"@, d.hours) + opt_u64_pairs("minutes"@, d.minutes)
        + opt_u64_pairs("seconds"@, d.seconds) + opt_u64_pairs("milliseconds"@, d.milliseconds)
}

/// The duration that an object's fields read as: each part from the field of its unit's name,
/// which must be a non-negative integer when present. Other fields are ignored.
pub open spec fn duration_from(f: Seq<(String, AnyValue)>) -> Result<Duration, ()> {
    let days = opt_u64_field(f, "days"@);
    let hours = opt_u64_field(f, "hours"@);
    let minutes = opt_u64_field(f, "minutes"@);
    let seconds = opt_u64_field(f, "seconds"@);
    let milliseconds = opt_u64_field(f, "milliseconds"@);
    if days is Ok && hours is Ok && minutes is Ok && seconds is Ok && milliseconds is Ok {
        Ok(
            Duration {
                days: days->Ok_0,
                hours: hours->Ok_0,
                minutes: minutes->Ok_0,
                seconds: seconds->Ok_0,
                milliseconds: milliseconds->Ok_0,
            },
        )
    } else {
        Err(())
    }
}

/// `v` is the tree of `d`: a string for an expression, an object for a duration.
pub open spec fn duration_or_expression_tree(v: AnyValue, d: OneOfDurationOrIso8601Expression) -> bool {
    match d {
        OneOfDurationOrIso8601Expression::Duration(x) => v is Object && pairs(v->Object_0@) == duration_pairs(x),
        OneOfDurationOrIso8601Expression::Iso8601Expression(s) => v == AnyValue::String(s),
    }
}

/// What a tree reads as: a string is an expression, an object a duration; any other shape
/// matches neither.
pub open spec fn duration_or_expression_from(v: AnyValue) -> Result<OneOfDurationOrIso8601Expression, ()> {
    match v {
        AnyValue::String(s) => Ok(OneOfDurationOrIso8601Expression::Iso8601Expression(s)),
        AnyValue::Object(f) => match duration_from(f@) {
            Ok(d) => Ok(OneOfDurationOrIso8601Expression::Duration(d)),
            Err(_) => Err(()),
        },
        _ => Err(()),
    }
}

/// The tree of a duration.
pub fn encode_duration(d: &Duration) -> (r: AnyValue)
    ensures
        r is Object && pairs(r->Object_0@) == duration_pairs(*d),
{
    let mut out: Vec<(String, AnyValue)> = Vec::new();
    proof {
        assert(pairs(out@) =~= Seq::<(Seq<char>, AnyValue)>::empty());
    }
    put_opt_u64(&mut out, "days", d.days);
    put_opt_u64(&mut out, "hours", d.hours);
    put_opt_u64(&mut out, "minutes", d.minutes);
    put_opt_u64(&mut out, "seconds", d.seconds);
    put_opt_u64(&mut out, "milliseconds", d.milliseconds);
    proof {
        assert(pairs(out@) =~= duration_pairs(*d));
    }
    AnyValue::Object(out)
}

/// Reads a duration from an object's fields.
pub fn decode_duration(f: &Vec<(String, AnyValue)>) -> (r: Result<Duration, DecodeError>)
    ensures
        match duration_from(f@) {
            Ok(d) => r == Ok::<Duration, DecodeError>(d),
            Err(_) => r is Err,
        },
{
    let days = read_opt_u64(f, "days")?;
    let hours = read_opt_u64(f, "hours")?;
    let minutes = read_opt_u64(f, "minutes")?;
    let seconds = read_opt_u64(f, "seconds")?;
    let milliseconds = read_opt_u64(f, "milliseconds")?;
    Ok(Duration { days, hours, minutes, seconds, milliseconds })
}

/// The tree of a duration or expression.
pub fn encode_duration_or_expression(d: &OneOfDurationOrIso8601Expression) -> (r: AnyValue)
    ensures
        duration_or_expression_tree(r, *d),
{
    match d {
        OneOfDurationOrIso8601Expression::Duration(x) => encode_duration(x),
        OneOfDurationOrIso8601Expression::Iso8601Expression(s) => AnyValue::String(s.clone()),
    }
}

/// Reads a duration or expression, by the shape of the tree.
pub fn decode_duration_or_expression(v: &AnyValue, key: &str) -> (r: Result<OneOfDurationOrIso8601Expression, DecodeError>)
    ensures
        match duration_or_expression_from(*v) {
            Ok(d) => r == Ok::<OneOfDurationOrIso8601Expression, DecodeError>(d),
            Err(_) => r is Err,
        },
{
    match v {
        AnyValue::String(s) => Ok(OneOfDurationOrIso8601Expression::Iso8601Expression(s.clone())),
        AnyValue::Object(f) => match decode_duration(f) {
            Ok(d) => Ok(OneOfDurationOrIso8601Expression::Duration(d)),
            Err(e) => Err(e),
        },
        _ => Err(wrong_type(key)),
    }
}

/// The first of two lookups that finds the key.
pub open spec fn first_found(x: Option<AnyValue>, y: Option<AnyValue>) -> Option<AnyValue> {
    if x is Some { x } else { y }
}

/// Looking a key up in five sequences of pairs, one after the other.
proof fn lemma_lookup5(
    a: Seq<(Seq<char>, AnyValue)>,
    b: Seq<(Seq<char>, AnyValue)>,
    c: Seq<(Seq<char>, AnyValue)>,
    e: Seq<(Seq<char>, AnyValue)>,
    g: Seq<(Seq<char>, AnyValue)>,
    k: Seq<char>,
)
    ensures
        lookup(a + b + c + e + g, k) == first_found(lookup(a, k), first_found(lookup(b, k),
            first_found(lookup(c, k), first_found(lookup(e, k), lookup(g, k))))),
{
    lemma_lookup_concat(a + b + c + e, g, k);
    lemma_lookup_concat(a + b + c, e, k);
    lemma_lookup_concat(a + b, c, k);
    lemma_lookup_concat(a, b, k);
}

/// Looking a key up in the pairs of one optional unsigned field.
pub proof fn lemma_lookup_opt_u64(key: Seq<char>, o: Option<u64>)
    ensures
        forall|k: Seq<char>| #[trigger] lookup(opt_u64_pairs(key, o), k) == if k == key && o is Some {
            Some(AnyValue::UInt(o->0))
        } else {
            None::<AnyValue>
        },
{
    reveal_with_fuel(lookup, 2);
}

/// The fields of a tree that holds the given pairs read back as what they were made from.
proof fn lemma_duration_lookup(f: Seq<(String, AnyValue)>, d: Duration)
    requires
        pairs(f) == duration_pairs(d),
    ensures
        opt_u64_field(f, "days"@) == Ok::<Option<u64>, ()>(d.days),
        opt_u64_field(f, "hours"@) == Ok::<Option<u64>, ()>(d.hours),
        opt_u64_field(f, "minutes"@) == Ok::<Option<u64>, ()>(d.minutes),
        opt_u64_field(f, "seconds"@) == Ok::<Option<u64>, ()>(d.seconds),
        opt_u64_field(f, "milliseconds"@) == Ok::<Option<u64>, ()>(d.milliseconds),
{
    reveal_strlit("days");
    reveal_strlit("hours");
    reveal_strlit("minutes");
    reveal_strlit("seconds");
    reveal_strlit("milliseconds");
    let a = opt_u64_pairs("days"@, d.days);
    let b = opt_u64_pairs("hours"@, d.hours);
    let c = opt_u64_pairs("minutes"@, d.minutes);
    let e = opt_u64_pairs("seconds"@, d.seconds);
    let g = opt_u64_pairs("milliseconds"@, d.milliseconds);
    lemma_lookup_opt_u64("days"@, d.days);
    lemma_lookup_opt_u64("hours"@, d.hours);
    lemma_lookup_opt_u64("minutes"@, d.minutes);
    lemma_lookup_opt_u64("seconds"@, d.seconds);
    lemma_lookup_opt_u64("milliseconds"@, d.milliseconds);
    assert("days"@.len() == 4 && "hours"@.len() == 5 && "minutes"@.len() == 7);
    assert("seconds"@.len() == 7 && "milliseconds"@.len() == 12);
    assert("days"@ != "hours"@ && "days"@ != "minutes"@ && "days"@ != "seconds"@ && "days"@ != "milliseconds"@);
    assert("hours"@ != "minutes"@ && "hours"@ != "seconds"@ && "hours"@ != "milliseconds"@);
    assert("minutes"@[0] == 'm' && "seconds"@[0] == 's');
    assert("minutes"@ != "seconds"@ && "minutes"@ != "milliseconds"@);
    assert("seconds"@ != "milliseconds"@);
    lemma_lookup5(a, b, c, e, g, "days"@);
    lemma_lookup5(a, b, c, e, g, "hours"@);
    lemma_lookup5(a, b, c, e, g, "minutes"@);
    lemma_lookup5(a, b, c, e, g, "seconds"@);
    lemma_lookup5(a, b, c, e, g, "milliseconds"@);
    lemma_value_of_lookup(f, "days"@);
    lemma_value_of_lookup(f, "hours"@);
    lemma_value_of_lookup(f, "minutes"@);
    lemma_value_of_lookup(f, "seconds"@);
    lemma_value_of_lookup(f, "milliseconds"@);
}

/// Reading back the tree of a duration or expression gives it back, whichever shape it has.
pub proof fn law_duration_or_expression_round_trip(v: AnyValue, d: OneOfDurationOrIso8601Expression)
    requires
        duration_or_expression_tree(v, d),
    ensures
        duration_or_expression_from(v) == Ok::<OneOfDurationOrIso8601Expression, ()>(d),
{
    match d {
        OneOfDurationOrIso8601Expression::Duration(x) => {
            lemma_duration_lookup(v->Object_0@, x);
        },
        OneOfDurationOrIso8601Expression::Iso8601Expression(s) => {},
    }
}

} // verus!
