use vstd::prelude::*;
use vstd::std_specs::iter::IteratorSpec;
use crate::auth::{
    AuthenticationPolicyDefinition, BasicAuthenticationSchemeDefinition,
    BearerAuthenticationSchemeDefinition, CertificateAuthenticationSchemeDefinition,
    DigestAuthenticationSchemeDefinition, OAuth2AuthenticationClientDefinition,
    OAuth2AuthenticationEndpointsDefinition, OAuth2AuthenticationRequestDefinition,
    OAuth2AuthenticationSchemeDefinition, OAuth2RequestEncoding, OAuth2TokenDefinition,
    OpenIDConnectSchemeDefinition,
    default_introspection_endpoint, default_oauth2_request_encoding, default_revocation_endpoint,
    default_token_endpoint,
};
use crate::codec::{
    DecodeError, missing, put, put_opt_bool, put_opt_string, put_opt_value, read_opt_bool,
    read_opt_string, read_opt_string_list, read_opt_string_pairs, read_opt_u64, read_opt_value,
    read_opt_value_pairs, read_string, string_list_value, string_pairs_value, value_pairs_value,
    wrong_type,
};
use crate::duration::write_decimal;
use crate::duration_codec::{duration_or_expression_from, duration_or_expression_tree, law_duration_or_expression_round_trip, decode_duration, decode_duration_or_expression, encode_duration, encode_duration_or_expression};
use crate::entries::{find_entry, first_key_at, has_key, key_index, lemma_first_key_unique, lemma_key_index, value_of};
use crate::codec::{
    fields_of, keys_within, lemma_lookup_concat, opt_bool_field, opt_bool_pairs, lemma_value_of_lookup, lookup, opt_string_field,
    opt_string_pairs, pairs, string_list_field_ok, string_pairs_field_ok,
};
use crate::duration::OneOfDurationOrIso8601Expression;
use crate::error::{ErrorDefinition, OneOfErrorDefinitionOrReference};
use crate::event::{
    CorrelationKeyDefinition, EventConsumptionStrategyDefinition, EventDefinition,
    EventFilterDefinition, OneOfEventConsumptionStrategyDefinitionOrExpression,
};
use crate::duration::Duration;
use crate::map::OrderedMap;
use crate::resource::{
    EndpointDefinition, ExternalResourceDefinition, InputDataModelDefinition,
    OneOfEndpointDefinitionUri, OutputDataModelDefinition, SchemaDefinition, default_schema_format,
};
use crate::retry::{
    BackoffStrategyDefinition, ConstantBackoffDefinition, ExponentialBackoffDefinition,
    JitterDefinition, LinearBackoffDefinition, OneOfRetryPolicyDefinitionOrReference,
    RetryAttemptLimitDefinition, RetryPolicyDefinition, RetryPolicyLimitDefinition,
};
use crate::task::{
    BranchingDefinition, CallTaskDefinition, ContainerProcessDefinition, DoTaskDefinition,
    EmitTaskDefinition, ErrorCatcherDefinition, ErrorFilterDefinition, EventEmissionDefinition,
    ForLoopDefinition, ForTaskDefinition, ForkTaskDefinition, ListenTaskDefinition,
    ListenerDefinition, ProcessTypeDefinition, RaiseErrorDefinition, RaiseTaskDefinition,
    RunTaskDefinition, ScriptProcessDefinition, SetTaskDefinition, SetValue,
    ShellProcessDefinition, SubscriptionIteratorDefinition, SwitchCaseDefinition,
    SwitchTaskDefinition, TaskDefinition, TaskDefinitionFields, TaskMap, TryTaskDefinition,
    TaskType, WaitTaskDefinition, WorkflowProcessDefinition, kind_name, no_fields,
};
use crate::timeout::{OneOfTimeoutDefinitionOrReference, TimeoutDefinition};
use crate::value::{AnyValue, copy_of, get_field, lemma_same_tree_trans, same_tree, scalars_kept};
use crate::workflow::{
    CatalogDefinition, ComponentDefinitionCollection, ExtensionDefinition,
    RuntimeExpressionEvaluationConfiguration, WorkflowDefinition, WorkflowDefinitionMetadata,
    WorkflowScheduleDefinition, default_dsl_version, default_namespace, DEFAULT_NAMESPACE,
    LATEST_DSL_VERSION,
    default_runtime_expression_language,
};

verus! {

/// The value of the first field of the object `v` named `key`, if `v` is an object and has one.
fn get_child<'a>(v: &'a AnyValue, key: &str) -> (r: Option<&'a AnyValue>)
    ensures
        r matches Some(c) ==> decreases_to!(*v => *c),
        r matches Some(c) ==> value_of(fields_of(*v), key@) == Some(*c),
        r is None ==> value_of(fields_of(*v), key@) is None,
{
    match v {
        AnyValue::Object(f) => match find_entry(f, key) {
            Some(i) => {
                proof {
                    assert(decreases_to!(*v => v->Object_0));
                    assert(decreases_to!(v->Object_0 => v->Object_0@));
                    assert(decreases_to!(v->Object_0@ => v->Object_0@[i as int]));
                    assert(decreases_to!(v->Object_0@[i as int] => v->Object_0@[i as int].1));
                }
                Some(&f[i].1)
            },
            None => None,
        },
        _ => {
            proof {
                assert(fields_of(*v) =~= Seq::<(String, AnyValue)>::empty());
                assert(!has_key(fields_of(*v), key@));
            }
            None
        },
    }
}

/// Reads a duration from its tree, found under `key`.
fn decode_duration_value(v: &AnyValue, key: &str) -> (r: Result<Duration, DecodeError>) {
    match v {
        AnyValue::Object(f) => decode_duration(f),
        _ => Err(wrong_type(key)),
    }
}

/// `v` is the tree of a timeout: an object whose one field `after` holds the tree of its
/// length of time.
pub open spec fn timeout_tree(v: AnyValue, t: TimeoutDefinition) -> bool {
    &&& v is Object
    &&& v->Object_0@.len() == 1
    &&& v->Object_0@[0].0@ == "after"@
    &&& duration_or_expression_tree(v->Object_0@[0].1, t.after)
}

/// What a timeout's tree reads as: the length of time under `after`, which must be present.
pub open spec fn timeout_from(v: AnyValue) -> Result<TimeoutDefinition, ()> {
    match value_of(fields_of(v), "after"@) {
        Some(x) => match duration_or_expression_from(x) {
            Ok(d) => if v is Object { Ok(TimeoutDefinition { after: d }) } else { Err(()) },
            Err(_) => Err(()),
        },
        None => Err(()),
    }
}

/// `v` is the tree of a timeout given inline or by name: a string for a name.
pub open spec fn timeout_or_reference_tree(v: AnyValue, t: OneOfTimeoutDefinitionOrReference) -> bool {
    match t {
        OneOfTimeoutDefinitionOrReference::Timeout(d) => timeout_tree(v, d),
        OneOfTimeoutDefinitionOrReference::Reference(s) => v == AnyValue::String(s),
    }
}

/// What a timeout's tree reads as: a string names a reusable timeout, an object defines one.
pub open spec fn timeout_or_reference_from(v: AnyValue) -> Result<OneOfTimeoutDefinitionOrReference, ()> {
    match v {
        AnyValue::String(s) => Ok(OneOfTimeoutDefinitionOrReference::Reference(s)),
        AnyValue::Object(_) => match timeout_from(v) {
            Ok(t) => Ok(OneOfTimeoutDefinitionOrReference::Timeout(t)),
            Err(_) => Err(()),
        },
        _ => Err(()),
    }
}

/// The tree of a timeout.
pub fn encode_timeout(x: &TimeoutDefinition) -> (r: AnyValue)
    ensures
        timeout_tree(r, *x),
{
    let mut out: Vec<(String, AnyValue)> = Vec::new();
    put(&mut out, "after", encode_duration_or_expression(&x.after));
    AnyValue::Object(out)
}

/// Reads a timeout from its tree, found under `key`.
pub fn decode_timeout(v: &AnyValue, key: &str) -> (r: Result<TimeoutDefinition, DecodeError>)
    ensures
        match timeout_from(*v) {
            Ok(t) => r == Ok::<TimeoutDefinition, DecodeError>(t),
            Err(_) => r is Err,
        },
{
    match get_child(v, "after") {
        Some(c) => {
            let after = decode_duration_or_expression(c, "after")?;
            match v {
                AnyValue::Object(_) => Ok(TimeoutDefinition { after }),
                _ => Err(wrong_type(key)),
            }
        },
        None => Err(missing("after")),
    }
}

/// The tree of a timeout given inline or by name.
pub fn encode_timeout_or_reference(x: &OneOfTimeoutDefinitionOrReference) -> (r: AnyValue)
    ensures
        timeout_or_reference_tree(r, *x),
{
    match x {
        OneOfTimeoutDefinitionOrReference::Timeout(t) => encode_timeout(t),
        OneOfTimeoutDefinitionOrReference::Reference(s) => AnyValue::String(s.clone()),
    }
}

/// Reads a timeout: a string names a reusable one, an object defines one.
pub fn decode_timeout_or_reference(v: &AnyValue, key: &str) -> (r: Result<OneOfTimeoutDefinitionOrReference, DecodeError>)
    ensures
        match timeout_or_reference_from(*v) {
            Ok(t) => r == Ok::<OneOfTimeoutDefinitionOrReference, DecodeError>(t),
            Err(_) => r is Err,
        },
{
    match v {
        AnyValue::String(s) => Ok(OneOfTimeoutDefinitionOrReference::Reference(s.clone())),
        AnyValue::Object(_) => Ok(OneOfTimeoutDefinitionOrReference::Timeout(decode_timeout(v, key)?)),
        _ => Err(wrong_type(key)),
    }
}

/// Reading back the tree of a timeout, given inline or by name, gives it back.
pub proof fn law_timeout_round_trip(v: AnyValue, t: OneOfTimeoutDefinitionOrReference)
    requires
        timeout_or_reference_tree(v, t),
    ensures
        timeout_or_reference_from(v) == Ok::<OneOfTimeoutDefinitionOrReference, ()>(t),
{
    match t {
        OneOfTimeoutDefinitionOrReference::Timeout(d) => {
            let f = v->Object_0@;
            assert(first_key_at(f, "after"@, 0));
            lemma_key_index(f, "after"@);
            lemma_first_key_unique(f, "after"@, 0, key_index(f, "after"@));
            law_duration_or_expression_round_trip(f[0].1, d.after);
        },
        OneOfTimeoutDefinitionOrReference::Reference(_) => {},
    }
}

/// The tree of a 'set' value: an object for named values, a string for an expression.
pub fn encode_set_value(x: &SetValue) -> (r: AnyValue)
    ensures
        x is Entries ==> copy_of(r, AnyValue::Object(x->Entries_0)),
        x is Expression ==> r == AnyValue::String(x->Expression_0),
{
    match x {
        SetValue::Entries(m) => value_pairs_value(m),
        SetValue::Expression(s) => AnyValue::String(s.clone()),
    }
}

/// Reads a 'set' value by the shape of its tree: an object holds named values, a string is an
/// expression, and any other shape matches neither.
pub fn decode_set_value(v: &AnyValue, key: &str) -> (r: Result<SetValue, DecodeError>)
    ensures
        v is String ==> r == Ok::<SetValue, DecodeError>(SetValue::Expression(v->String_0)),
        v is Object ==> (r matches Ok(SetValue::Entries(m)) && copy_of(AnyValue::Object(m), *v)
            && scalars_kept(AnyValue::Object(m), *v)),
        !(v is String) && !(v is Object) ==> (r matches Err(DecodeError::WrongType(k)) && k@ == key@),
{
    match v {
        AnyValue::String(s) => Ok(SetValue::Expression(s.clone())),
        AnyValue::Object(_) => match v.deep_clone() {
            AnyValue::Object(m) => Ok(SetValue::Entries(m)),
            _ => Err(wrong_type(key)),
        },
        _ => Err(wrong_type(key)),
    }
}

/// The tree of an endpoint given in full or as a URI.
fn encode_endpoint_or_uri(x: &OneOfEndpointDefinitionUri) -> (r: AnyValue) {
    match x {
        OneOfEndpointDefinitionUri::EndpointDefinition(e) => encode_endpoint(e),
        OneOfEndpointDefinitionUri::Uri(s) => AnyValue::String(s.clone()),
    }
}

/// Reads an endpoint: a string is a URI, an object an endpoint in full.
fn decode_endpoint_or_uri(v: &AnyValue, key: &str) -> (r: Result<OneOfEndpointDefinitionUri, DecodeError>) {
    match v {
        AnyValue::String(s) => Ok(OneOfEndpointDefinitionUri::Uri(s.clone())),
        AnyValue::Object(_) => Ok(OneOfEndpointDefinitionUri::EndpointDefinition(decode_endpoint(v, key)?)),
        _ => Err(wrong_type(key)),
    }
}

/// The tree of an error given inline or by name.
fn encode_error_or_reference(x: &OneOfErrorDefinitionOrReference) -> (r: AnyValue)
    ensures
        error_or_reference_tree(r, *x),
{
    match x {
        OneOfErrorDefinitionOrReference::Error(e) => encode_error(e),
        OneOfErrorDefinitionOrReference::Reference(s) => AnyValue::String(s.clone()),
    }
}

/// Reads an error: a string names a reusable one, an object defines one.
fn decode_error_or_reference(v: &AnyValue, key: &str) -> (r: Result<OneOfErrorDefinitionOrReference, DecodeError>)
    ensures
        forall|x: OneOfErrorDefinitionOrReference| #[trigger] error_or_reference_tree(*v, x) ==> (r matches Ok(y)
            && same_error(y, x)),
{
    match v {
        AnyValue::String(s) => Ok(OneOfErrorDefinitionOrReference::Reference(s.clone())),
        AnyValue::Object(_) => Ok(OneOfErrorDefinitionOrReference::Error(decode_error(v, key)?)),
        _ => Err(wrong_type(key)),
    }
}

/// The tree of a retry policy given inline or by name.
fn encode_retry_or_reference(x: &OneOfRetryPolicyDefinitionOrReference) -> (r: AnyValue) {
    match x {
        OneOfRetryPolicyDefinitionOrReference::Retry(p) => encode_retry_policy(p),
        OneOfRetryPolicyDefinitionOrReference::Reference(s) => AnyValue::String(s.clone()),
    }
}

/// Reads a retry policy: a string names a reusable one, an object defines one.
fn decode_retry_or_reference(v: &AnyValue, key: &str) -> (r: Result<OneOfRetryPolicyDefinitionOrReference, DecodeError>) {
    match v {
        AnyValue::String(s) => Ok(OneOfRetryPolicyDefinitionOrReference::Reference(s.clone())),
        AnyValue::Object(_) => Ok(OneOfRetryPolicyDefinitionOrReference::Retry(decode_retry_policy(v, key)?)),
        _ => Err(wrong_type(key)),
    }
}

/// The tree of the condition that ends an 'any' consumption.
fn encode_until(x: &OneOfEventConsumptionStrategyDefinitionOrExpression) -> (r: AnyValue)
    decreases x,
{
    match x {
        OneOfEventConsumptionStrategyDefinitionOrExpression::Strategy(s) => encode_consumption_strategy(s),
        OneOfEventConsumptionStrategyDefinitionOrExpression::Expression(e) => AnyValue::String(e.clone()),
    }
}

/// Reads the condition that ends an 'any' consumption: a string is an expression, an object a
/// strategy.
fn decode_until(v: &AnyValue, key: &str) -> (r: Result<Box<OneOfEventConsumptionStrategyDefinitionOrExpression>, DecodeError>)
    decreases v, 2int,
{
    match v {
        AnyValue::String(s) => Ok(Box::new(OneOfEventConsumptionStrategyDefinitionOrExpression::Expression(s.clone()))),
        AnyValue::Object(_) => Ok(Box::new(OneOfEventConsumptionStrategyDefinitionOrExpression::Strategy(
            decode_consumption_strategy(v, key)?,
        ))),
        _ => Err(wrong_type(key)),
    }
}

/// The tree of a list of event filters.
fn encode_event_filter_list(l: &Vec<EventFilterDefinition>) -> (r: AnyValue) {
    let mut out: Vec<AnyValue> = Vec::new();
    let mut i: usize = 0;
    while i < l.len()
        decreases l.len() - i,
    {
        out.push(encode_event_filter(&l[i]));
        i = i + 1;
    }
    AnyValue::Array(out)
}

/// Reads a list of event filters.
fn decode_event_filter_list(v: &AnyValue, key: &str) -> (r: Result<Vec<EventFilterDefinition>, DecodeError>) {
    match v {
        AnyValue::Array(items) => {
            let mut out: Vec<EventFilterDefinition> = Vec::new();
            let mut i: usize = 0;
            while i < items.len()
                decreases items.len() - i,
            {
                out.push(decode_event_filter(&items[i], key)?);
                i = i + 1;
            }
            Ok(out)
        },
        _ => Err(wrong_type(key)),
    }
}

/// The tree of port mappings: an object from each host port, in decimal, to its container port.
fn ports_value(p: &Vec<(u16, u16)>) -> (r: AnyValue) {
    let mut out: Vec<(String, AnyValue)> = Vec::new();
    let mut i: usize = 0;
    while i < p.len()
        decreases p.len() - i,
    {
        let mut k = String::new();
        write_decimal(&mut k, p[i].0 as u64);
        out.push((k, AnyValue::UInt(p[i].1 as u64)));
        i = i + 1;
    }
    AnyValue::Object(out)
}

/// Reads port mappings: each key a host port in decimal, each value a container port.
fn decode_ports(v: &AnyValue, key: &str) -> (r: Result<Vec<(u16, u16)>, DecodeError>) {
    match v {
        AnyValue::Object(items) => {
            let mut out: Vec<(u16, u16)> = Vec::new();
            let mut i: usize = 0;
            while i < items.len()
                decreases items.len() - i,
            {
                let host = match parse_port(&items[i].0) {
                    Some(h) => h,
                    None => {
                        return Err(wrong_type(key));
                    },
                };
                let target = match &items[i].1 {
                    AnyValue::UInt(n) => {
                        if *n > 65535 {
                            return Err(wrong_type(key));
                        }
                        *n as u16
                    },
                    _ => {
                        return Err(wrong_type(key));
                    },
                };
                out.push((host, target));
                i = i + 1;
            }
            Ok(out)
        },
        _ => Err(wrong_type(key)),
    }
}

/// The value of a decimal digit character.
pub open spec fn digit_value(c: char) -> int {
    c as int - '0' as int
}

/// The number that a string of decimal digits denotes.
pub open spec fn decimal_value(s: Seq<char>) -> int
    decreases s.len(),
{
    if s.len() == 0 {
        0
    } else {
        decimal_value(s.drop_last()) * 10 + digit_value(s.last())
    }
}

/// Whether every character is a decimal digit.
pub open spec fn all_digits(s: Seq<char>) -> bool {
    forall|i: int| 0 <= i < s.len() ==> '0' <= #[trigger] s[i] <= '9'
}

/// Reads a port number written in decimal: one to five digits, at most 65535.
pub fn parse_port(s: &String) -> (r: Option<u16>)
    ensures
        match r {
            Some(n) => 1 <= s@.len() <= 5 && all_digits(s@) && decimal_value(s@) == n as int,
            None => !(1 <= s@.len() <= 5 && all_digits(s@) && decimal_value(s@) <= 65535),
        },
{
    let mut n: u64 = 0;
    let mut count: usize = 0;
    let mut chars = s.as_str().chars();
    let ghost text = s@;
    proof {
        assert(text.subrange(0, 0) =~= Seq::<char>::empty());
        assert(text.subrange(0, text.len() as int) =~= text);
    }
    loop
        invariant
            count <= 5,
            count <= text.len(),
            text == s@,
            chars.remaining() == text.subrange(count as int, text.len() as int),
            all_digits(text.subrange(0, count as int)),
            n as int == decimal_value(text.subrange(0, count as int)),
            n <= 99999,
            count == 0 ==> n == 0,
            count <= 1 ==> n <= 9,
            count <= 2 ==> n <= 99,
            count <= 3 ==> n <= 999,
            count <= 4 ==> n <= 9999,
        decreases text.len() - count,
    {
        match chars.next() {
            None => {
                proof {
                    assert(count == text.len());
                    assert(text.subrange(0, count as int) =~= text);
                }
                if count == 0 || n > 65535 {
                    return None;
                }
                return Some(n as u16);
            },
            Some(c) => {
                if c < '0' || c > '9' || count == 5 {
                    proof {
                        if count < 5 {
                            assert(text[count as int] == c);
                        }
                    }
                    return None;
                }
                let ghost prev = text.subrange(0, count as int);
                proof {
                    assert(text[count as int] == c);
                    assert(chars.remaining() =~= text.subrange(count + 1, text.len() as int));
                }
                n = n * 10 + (c as u64 - '0' as u64);
                count = count + 1;
                proof {
                    assert(text.subrange(0, count as int).drop_last() =~= prev);
                    assert(text.subrange(0, count as int).last() == c);
                }
            },
        }
    }
}

/// The tree of a BasicAuthenticationSchemeDefinition.
fn encode_basic_scheme(x: &BasicAuthenticationSchemeDefinition) -> (r: AnyValue)
    ensures
        r is Object,
{
    let mut out: Vec<(String, AnyValue)> = Vec::new();
    put_opt_string(&mut out, "use", &x.use_);
    put_opt_string(&mut out, "username", &x.username);
    put_opt_string(&mut out, "password", &x.password);
    AnyValue::Object(out)
}

/// Reads a BasicAuthenticationSchemeDefinition from its tree, found under `key`.
fn decode_basic_scheme(v: &AnyValue, key: &str) -> (r: Result<BasicAuthenticationSchemeDefinition, DecodeError>)
    ensures
        !(v is Object) ==> r is Err,
{
    let f = match v {
        AnyValue::Object(f) => f,
        _ => {
            return Err(wrong_type(key));
        },
    };
    let use_ = read_opt_string(f, "use")?;
    let username = read_opt_string(f, "username")?;
    let password = read_opt_string(f, "password")?;
    Ok(BasicAuthenticationSchemeDefinition { use_, username, password })
}

/// The tree of a BearerAuthenticationSchemeDefinition.
fn encode_bearer_scheme(x: &BearerAuthenticationSchemeDefinition) -> (r: AnyValue)
    ensures
        r is Object,
{
    let mut out: Vec<(String, AnyValue)> = Vec::new();
    put_opt_string(&mut out, "use", &x.use_);
    put_opt_string(&mut out, "token", &x.token);
    AnyValue::Object(out)
}

/// Reads a BearerAuthenticationSchemeDefinition from its tree, found under `key`.
fn decode_bearer_scheme(v: &AnyValue, key: &str) -> (r: Result<BearerAuthenticationSchemeDefinition, DecodeError>)
    ensures
        !(v is Object) ==> r is Err,
{
    let f = match v {
        AnyValue::Object(f) => f,
        _ => {
            return Err(wrong_type(key));
        },
    };
    let use_ = read_opt_string(f, "use")?;
    let token = read_opt_string(f, "token")?;
    Ok(BearerAuthenticationSchemeDefinition { use_, token })
}

/// The tree of a CertificateAuthenticationSchemeDefinition.
fn encode_certificate_scheme(x: &CertificateAuthenticationSchemeDefinition) -> (r: AnyValue)
    ensures
        r is Object,
{
    let mut out: Vec<(String, AnyValue)> = Vec::new();
    put_opt_string(&mut out, "use", &x.use_);
    AnyValue::Object(out)
}

/// Reads a CertificateAuthenticationSchemeDefinition from its tree, found under `key`.
fn decode_certificate_scheme(v: &AnyValue, key: &str) -> (r: Result<CertificateAuthenticationSchemeDefinition, DecodeError>)
    ensures
        !(v is Object) ==> r is Err,
{
    let f = match v {
        AnyValue::Object(f) => f,
        _ => {
            return Err(wrong_type(key));
        },
    };
    let use_ = read_opt_string(f, "use")?;
    Ok(CertificateAuthenticationSchemeDefinition { use_ })
}

/// The tree of a DigestAuthenticationSchemeDefinition.
fn encode_digest_scheme(x: &DigestAuthenticationSchemeDefinition) -> (r: AnyValue)
    ensures
        r is Object,
{
    let mut out: Vec<(String, AnyValue)> = Vec::new();
    put_opt_string(&mut out, "use", &x.use_);
    put_opt_string(&mut out, "username", &x.username);
    put_opt_string(&mut out, "password", &x.password);
    AnyValue::Object(out)
}

/// Reads a DigestAuthenticationSchemeDefinition from its tree, found under `key`.
fn decode_digest_scheme(v: &AnyValue, key: &str) -> (r: Result<DigestAuthenticationSchemeDefinition, DecodeError>)
    ensures
        !(v is Object) ==> r is Err,
{
    let f = match v {
        AnyValue::Object(f) => f,
        _ => {
            return Err(wrong_type(key));
        },
    };
    let use_ = read_opt_string(f, "use")?;
    let username = read_opt_string(f, "username")?;
    let password = read_opt_string(f, "password")?;
    Ok(DigestAuthenticationSchemeDefinition { use_, username, password })
}

/// The tree of a OAuth2AuthenticationClientDefinition.
fn encode_oauth2_client(x: &OAuth2AuthenticationClientDefinition) -> (r: AnyValue)
    ensures
        r is Object,
{
    let mut out: Vec<(String, AnyValue)> = Vec::new();
    put_opt_string(&mut out, "id", &x.id);
    put_opt_string(&mut out, "secret", &x.secret);
    put_opt_string(&mut out, "assertion", &x.assertion);
    put_opt_string(&mut out, "authentication", &x.authentication);
    AnyValue::Object(out)
}

/// Reads a OAuth2AuthenticationClientDefinition from its tree, found under `key`.
fn decode_oauth2_client(v: &AnyValue, key: &str) -> (r: Result<OAuth2AuthenticationClientDefinition, DecodeError>)
    ensures
        !(v is Object) ==> r is Err,
{
    let f = match v {
        AnyValue::Object(f) => f,
        _ => {
            return Err(wrong_type(key));
        },
    };
    let id = read_opt_string(f, "id")?;
    let secret = read_opt_string(f, "secret")?;
    let assertion = read_opt_string(f, "assertion")?;
    let authentication = read_opt_string(f, "authentication")?;
    Ok(OAuth2AuthenticationClientDefinition { id, secret, assertion, authentication })
}

/// The tree of a OAuth2AuthenticationRequestDefinition.
fn encode_oauth2_request(x: &OAuth2AuthenticationRequestDefinition) -> (r: AnyValue)
    ensures
        r is Object,
{
    let mut out: Vec<(String, AnyValue)> = Vec::new();
    put(&mut out, "encoding", AnyValue::String(x.encoding.clone()));
    AnyValue::Object(out)
}

/// Reads a OAuth2AuthenticationRequestDefinition from its tree, found under `key`.
fn decode_oauth2_request(v: &AnyValue, key: &str) -> (r: Result<OAuth2AuthenticationRequestDefinition, DecodeError>)
    ensures
        !(v is Object) ==> r is Err,
        r matches Ok(q) ==> (opt_string_field(fields_of(*v), "encoding"@) == Ok::<Option<String>, ()>(None)
            ==> q.encoding@ == OAuth2RequestEncoding::FORM_URL@),
        v is Object && opt_string_field(fields_of(*v), "encoding"@) is Ok ==> r is Ok,
        r matches Ok(q) ==> (opt_string_field(fields_of(*v), "encoding"@) matches Ok(Some(e)) ==> q.encoding == e),
{
    let f = match v {
        AnyValue::Object(f) => f,
        _ => {
            return Err(wrong_type(key));
        },
    };
    let encoding = match read_opt_string(f, "encoding")? {
        Some(s) => s,
        None => default_oauth2_request_encoding(),
    };
    Ok(OAuth2AuthenticationRequestDefinition { encoding })
}

/// The tree of a OAuth2TokenDefinition.
fn encode_oauth2_token(x: &OAuth2TokenDefinition) -> (r: AnyValue)
    ensures
        r is Object,
{
    let mut out: Vec<(String, AnyValue)> = Vec::new();
    put(&mut out, "token", AnyValue::String(x.token.clone()));
    put(&mut out, "type", AnyValue::String(x.type_.clone()));
    AnyValue::Object(out)
}

/// Reads a OAuth2TokenDefinition from its tree, found under `key`.
fn decode_oauth2_token(v: &AnyValue, key: &str) -> (r: Result<OAuth2TokenDefinition, DecodeError>)
    ensures
        !(v is Object) ==> r is Err,
{
    let f = match v {
        AnyValue::Object(f) => f,
        _ => {
            return Err(wrong_type(key));
        },
    };
    let token = read_string(f, "token")?;
    let type_ = read_string(f, "type")?;
    Ok(OAuth2TokenDefinition { token, type_ })
}

/// The tree of a OAuth2AuthenticationEndpointsDefinition.
fn encode_oauth2_endpoints(x: &OAuth2AuthenticationEndpointsDefinition) -> (r: AnyValue)
    ensures
        r is Object,
{
    let mut out: Vec<(String, AnyValue)> = Vec::new();
    put(&mut out, "token", AnyValue::String(x.token.clone()));
    put(&mut out, "revocation", AnyValue::String(x.revocation.clone()));
    put(&mut out, "introspection", AnyValue::String(x.introspection.clone()));
    AnyValue::Object(out)
}

/// Reads a OAuth2AuthenticationEndpointsDefinition from its tree, found under `key`.
fn decode_oauth2_endpoints(v: &AnyValue, key: &str) -> (r: Result<OAuth2AuthenticationEndpointsDefinition, DecodeError>)
    ensures
        !(v is Object) ==> r is Err,
        v is Object && opt_string_field(fields_of(*v), "token"@) is Ok && opt_string_field(fields_of(*v), "revocation"@)
            is Ok && opt_string_field(fields_of(*v), "introspection"@) is Ok ==> r is Ok,
        r matches Ok(e) ==> (opt_string_field(fields_of(*v), "token"@) matches Ok(Some(t)) ==> e.token == t),
        r matches Ok(e) ==> (opt_string_field(fields_of(*v), "revocation"@) matches Ok(Some(t)) ==> e.revocation == t),
        r matches Ok(e) ==> (opt_string_field(fields_of(*v), "introspection"@) matches Ok(Some(t)) ==> e.introspection
            == t),
        r matches Ok(e) ==> (opt_string_field(fields_of(*v), "token"@) == Ok::<Option<String>, ()>(None)
            ==> e.token@ == "/oauth2/token"@),
        r matches Ok(e) ==> (opt_string_field(fields_of(*v), "revocation"@) == Ok::<Option<String>, ()>(None)
            ==> e.revocation@ == "/oauth2/revoke"@),
        r matches Ok(e) ==> (opt_string_field(fields_of(*v), "introspection"@) == Ok::<Option<String>, ()>(None)
            ==> e.introspection@ == "/oauth2/introspect"@),
{
    let f = match v {
        AnyValue::Object(f) => f,
        _ => {
            return Err(wrong_type(key));
        },
    };
    let token = match read_opt_string(f, "token")? {
        Some(s) => s,
        None => default_token_endpoint(),
    };
    let revocation = match read_opt_string(f, "revocation")? {
        Some(s) => s,
        None => default_revocation_endpoint(),
    };
    let introspection = match read_opt_string(f, "introspection")? {
        Some(s) => s,
        None => default_introspection_endpoint(),
    };
    Ok(OAuth2AuthenticationEndpointsDefinition { token, revocation, introspection })
}

/// The tree of a OAuth2AuthenticationSchemeDefinition.
fn encode_oauth2_scheme(x: &OAuth2AuthenticationSchemeDefinition) -> (r: AnyValue)
    ensures
        r is Object,
{
    let mut out: Vec<(String, AnyValue)> = Vec::new();
    put_opt_string(&mut out, "use", &x.use_);
    match &x.endpoints {
        Some(s) => put(&mut out, "endpoints", encode_oauth2_endpoints(s)),
        None => {},
    }
    put_opt_string(&mut out, "authority", &x.authority);
    put_opt_string(&mut out, "grant", &x.grant);
    match &x.client {
        Some(s) => put(&mut out, "client", encode_oauth2_client(s)),
        None => {},
    }
    match &x.request {
        Some(s) => put(&mut out, "request", encode_oauth2_request(s)),
        None => {},
    }
    match &x.issuers {
        Some(l) => put(&mut out, "issuers", string_list_value(l)),
        None => {},
    }
    match &x.scopes {
        Some(l) => put(&mut out, "scopes", string_list_value(l)),
        None => {},
    }
    match &x.audiences {
        Some(l) => put(&mut out, "audiences", string_list_value(l)),
        None => {},
    }
    put_opt_string(&mut out, "username", &x.username);
    put_opt_string(&mut out, "password", &x.password);
    match &x.subject {
        Some(s) => put(&mut out, "subject", encode_oauth2_token(s)),
        None => {},
    }
    match &x.actor {
        Some(s) => put(&mut out, "actor", encode_oauth2_token(s)),
        None => {},
    }
    AnyValue::Object(out)
}

/// Reads a OAuth2AuthenticationSchemeDefinition from its tree, found under `key`.
fn decode_oauth2_scheme(v: &AnyValue, key: &str) -> (r: Result<OAuth2AuthenticationSchemeDefinition, DecodeError>)
    ensures
        !(v is Object) ==> r is Err,
{
    let f = match v {
        AnyValue::Object(f) => f,
        _ => {
            return Err(wrong_type(key));
        },
    };
    let use_ = read_opt_string(f, "use")?;
    let endpoints = match get_child(v, "endpoints") {
        Some(c) => Some(decode_oauth2_endpoints(c, "endpoints")?),
        None => None,
    };
    let authority = read_opt_string(f, "authority")?;
    let grant = read_opt_string(f, "grant")?;
    let client = match get_child(v, "client") {
        Some(c) => Some(decode_oauth2_client(c, "client")?),
        None => None,
    };
    let request = match get_child(v, "request") {
        Some(c) => Some(decode_oauth2_request(c, "request")?),
        None => None,
    };
    let issuers = read_opt_string_list(f, "issuers")?;
    let scopes = read_opt_string_list(f, "scopes")?;
    let audiences = read_opt_string_list(f, "audiences")?;
    let username = read_opt_string(f, "username")?;
    let password = read_opt_string(f, "password")?;
    let subject = match get_child(v, "subject") {
        Some(c) => Some(decode_oauth2_token(c, "subject")?),
        None => None,
    };
    let actor = match get_child(v, "actor") {
        Some(c) => Some(decode_oauth2_token(c, "actor")?),
        None => None,
    };
    Ok(OAuth2AuthenticationSchemeDefinition { use_, endpoints, authority, grant, client, request, issuers, scopes, audiences, username, password, subject, actor })
}

/// The tree of a OpenIDConnectSchemeDefinition.
fn encode_oidc_scheme(x: &OpenIDConnectSchemeDefinition) -> (r: AnyValue)
    ensures
        r is Object,
{
    let mut out: Vec<(String, AnyValue)> = Vec::new();
    put_opt_string(&mut out, "use", &x.use_);
    put_opt_string(&mut out, "authority", &x.authority);
    put_opt_string(&mut out, "grant", &x.grant);
    match &x.client {
        Some(s) => put(&mut out, "client", encode_oauth2_client(s)),
        None => {},
    }
    match &x.request {
        Some(s) => put(&mut out, "request", encode_oauth2_request(s)),
        None => {},
    }
    match &x.issuers {
        Some(l) => put(&mut out, "issuers", string_list_value(l)),
        None => {},
    }
    match &x.scopes {
        Some(l) => put(&mut out, "scopes", string_list_value(l)),
        None => {},
    }
    match &x.audiences {
        Some(l) => put(&mut out, "audiences", string_list_value(l)),
        None => {},
    }
    put_opt_string(&mut out, "username", &x.username);
    put_opt_string(&mut out, "password", &x.password);
    match &x.subject {
        Some(s) => put(&mut out, "subject", encode_oauth2_token(s)),
        None => {},
    }
    match &x.actor {
        Some(s) => put(&mut out, "actor", encode_oauth2_token(s)),
        None => {},
    }
    AnyValue::Object(out)
}

/// Reads a OpenIDConnectSchemeDefinition from its tree, found under `key`.
fn decode_oidc_scheme(v: &AnyValue, key: &str) -> (r: Result<OpenIDConnectSchemeDefinition, DecodeError>)
    ensures
        !(v is Object) ==> r is Err,
{
    let f = match v {
        AnyValue::Object(f) => f,
        _ => {
            return Err(wrong_type(key));
        },
    };
    let use_ = read_opt_string(f, "use")?;
    let authority = read_opt_string(f, "authority")?;
    let grant = read_opt_string(f, "grant")?;
    let client = match get_child(v, "client") {
        Some(c) => Some(decode_oauth2_client(c, "client")?),
        None => None,
    };
    let request = match get_child(v, "request") {
        Some(c) => Some(decode_oauth2_request(c, "request")?),
        None => None,
    };
    let issuers = read_opt_string_list(f, "issuers")?;
    let scopes = read_opt_string_list(f, "scopes")?;
    let audiences = read_opt_string_list(f, "audiences")?;
    let username = read_opt_string(f, "username")?;
    let password = read_opt_string(f, "password")?;
    let subject = match get_child(v, "subject") {
        Some(c) => Some(decode_oauth2_token(c, "subject")?),
        None => None,
    };
    let actor = match get_child(v, "actor") {
        Some(c) => Some(decode_oauth2_token(c, "actor")?),
        None => None,
    };
    Ok(OpenIDConnectSchemeDefinition { use_, authority, grant, client, request, issuers, scopes, audiences, username, password, subject, actor })
}

/// The tree of a AuthenticationPolicyDefinition.
fn encode_authentication_policy(x: &AuthenticationPolicyDefinition) -> (r: AnyValue)
    ensures
        r is Object,
{
    let mut out: Vec<(String, AnyValue)> = Vec::new();
    put_opt_string(&mut out, "use", &x.use_);
    match &x.basic {
        Some(s) => put(&mut out, "basic", encode_basic_scheme(s)),
        None => {},
    }
    match &x.bearer {
        Some(s) => put(&mut out, "bearer", encode_bearer_scheme(s)),
        None => {},
    }
    match &x.certificate {
        Some(s) => put(&mut out, "certificate", encode_certificate_scheme(s)),
        None => {},
    }
    match &x.digest {
        Some(s) => put(&mut out, "digest", encode_digest_scheme(s)),
        None => {},
    }
    match &x.oauth2 {
        Some(s) => put(&mut out, "oauth2", encode_oauth2_scheme(s)),
        None => {},
    }
    match &x.oidc {
        Some(s) => put(&mut out, "oidc", encode_oidc_scheme(s)),
        None => {},
    }
    AnyValue::Object(out)
}

/// Reads a AuthenticationPolicyDefinition from its tree, found under `key`.
fn decode_authentication_policy(v: &AnyValue, key: &str) -> (r: Result<AuthenticationPolicyDefinition, DecodeError>)
    ensures
        !(v is Object) ==> r is Err,
{
    let f = match v {
        AnyValue::Object(f) => f,
        _ => {
            return Err(wrong_type(key));
        },
    };
    let use_ = read_opt_string(f, "use")?;
    let basic = match get_child(v, "basic") {
        Some(c) => Some(decode_basic_scheme(c, "basic")?),
        None => None,
    };
    let bearer = match get_child(v, "bearer") {
        Some(c) => Some(decode_bearer_scheme(c, "bearer")?),
        None => None,
    };
    let certificate = match get_child(v, "certificate") {
        Some(c) => Some(decode_certificate_scheme(c, "certificate")?),
        None => None,
    };
    let digest = match get_child(v, "digest") {
        Some(c) => Some(decode_digest_scheme(c, "digest")?),
        None => None,
    };
    let oauth2 = match get_child(v, "oauth2") {
        Some(c) => Some(decode_oauth2_scheme(c, "oauth2")?),
        None => None,
    };
    let oidc = match get_child(v, "oidc") {
        Some(c) => Some(decode_oidc_scheme(c, "oidc")?),
        None => None,
    };
    Ok(AuthenticationPolicyDefinition { use_, basic, bearer, certificate, digest, oauth2, oidc })
}

/// The tree of a EndpointDefinition.
fn encode_endpoint(x: &EndpointDefinition) -> (r: AnyValue)
    ensures
        r is Object,
{
    let mut out: Vec<(String, AnyValue)> = Vec::new();
    put(&mut out, "uri", AnyValue::String(x.uri.clone()));
    match &x.authentication {
        Some(s) => put(&mut out, "authentication", encode_authentication_policy(s)),
        None => {},
    }
    AnyValue::Object(out)
}

/// Reads a EndpointDefinition from its tree, found under `key`.
fn decode_endpoint(v: &AnyValue, key: &str) -> (r: Result<EndpointDefinition, DecodeError>)
    ensures
        !(v is Object) ==> r is Err,
{
    let f = match v {
        AnyValue::Object(f) => f,
        _ => {
            return Err(wrong_type(key));
        },
    };
    let uri = read_string(f, "uri")?;
    let authentication = match get_child(v, "authentication") {
        Some(c) => Some(decode_authentication_policy(c, "authentication")?),
        None => None,
    };
    Ok(EndpointDefinition { uri, authentication })
}

/// The tree of a ExternalResourceDefinition.
fn encode_external_resource(x: &ExternalResourceDefinition) -> (r: AnyValue)
    ensures
        r is Object,
{
    let mut out: Vec<(String, AnyValue)> = Vec::new();
    put_opt_string(&mut out, "name", &x.name);
    put(&mut out, "endpoint", encode_endpoint_or_uri(&x.endpoint));
    AnyValue::Object(out)
}

/// Reads a ExternalResourceDefinition from its tree, found under `key`.
fn decode_external_resource(v: &AnyValue, key: &str) -> (r: Result<ExternalResourceDefinition, DecodeError>)
    ensures
        !(v is Object) ==> r is Err,
{
    let f = match v {
        AnyValue::Object(f) => f,
        _ => {
            return Err(wrong_type(key));
        },
    };
    let name = read_opt_string(f, "name")?;
    let endpoint = match get_child(v, "endpoint") {
        Some(c) => decode_endpoint_or_uri(c, "endpoint")?,
        None => {
            return Err(missing("endpoint"));
        },
    };
    Ok(ExternalResourceDefinition { name, endpoint })
}

/// The tree of a SchemaDefinition.
fn encode_schema(x: &SchemaDefinition) -> (r: AnyValue)
    ensures
        r is Object,
{
    let mut out: Vec<(String, AnyValue)> = Vec::new();
    put(&mut out, "format", AnyValue::String(x.format.clone()));
    match &x.resource {
        Some(s) => put(&mut out, "resource", encode_external_resource(s)),
        None => {},
    }
    put_opt_value(&mut out, "document", &x.document);
    AnyValue::Object(out)
}

/// Reads a SchemaDefinition from its tree, found under `key`.
fn decode_schema(v: &AnyValue, key: &str) -> (r: Result<SchemaDefinition, DecodeError>)
    ensures
        !(v is Object) ==> r is Err,
{
    let f = match v {
        AnyValue::Object(f) => f,
        _ => {
            return Err(wrong_type(key));
        },
    };
    let format = match read_opt_string(f, "format")? {
        Some(s) => s,
        None => default_schema_format(),
    };
    let resource = match get_child(v, "resource") {
        Some(c) => Some(decode_external_resource(c, "resource")?),
        None => None,
    };
    let document = read_opt_value(f, "document");
    Ok(SchemaDefinition { format, resource, document })
}

/// The tree of a InputDataModelDefinition.
fn encode_input_data_model(x: &InputDataModelDefinition) -> (r: AnyValue)
    ensures
        r is Object,
{
    let mut out: Vec<(String, AnyValue)> = Vec::new();
    match &x.schema {
        Some(s) => put(&mut out, "schema", encode_schema(s)),
        None => {},
    }
    put_opt_value(&mut out, "from", &x.from);
    AnyValue::Object(out)
}

/// Reads a InputDataModelDefinition from its tree, found under `key`.
fn decode_input_data_model(v: &AnyValue, key: &str) -> (r: Result<InputDataModelDefinition, DecodeError>)
    ensures
        !(v is Object) ==> r is Err,
{
    let f = match v {
        AnyValue::Object(f) => f,
        _ => {
            return Err(wrong_type(key));
        },
    };
    let schema = match get_child(v, "schema") {
        Some(c) => Some(decode_schema(c, "schema")?),
        None => None,
    };
    let from = read_opt_value(f, "from");
    Ok(InputDataModelDefinition { schema, from })
}

/// The tree of a OutputDataModelDefinition.
fn encode_output_data_model(x: &OutputDataModelDefinition) -> (r: AnyValue)
    ensures
        r is Object,
{
    let mut out: Vec<(String, AnyValue)> = Vec::new();
    match &x.schema {
        Some(s) => put(&mut out, "schema", encode_schema(s)),
        None => {},
    }
    put_opt_value(&mut out, "as", &x.as_);
    AnyValue::Object(out)
}

/// Reads a OutputDataModelDefinition from its tree, found under `key`.
fn decode_output_data_model(v: &AnyValue, key: &str) -> (r: Result<OutputDataModelDefinition, DecodeError>)
    ensures
        !(v is Object) ==> r is Err,
{
    let f = match v {
        AnyValue::Object(f) => f,
        _ => {
            return Err(wrong_type(key));
        },
    };
    let schema = match get_child(v, "schema") {
        Some(c) => Some(decode_schema(c, "schema")?),
        None => None,
    };
    let as_ = read_opt_value(f, "as");
    Ok(OutputDataModelDefinition { schema, as_ })
}

/// The tree of a CorrelationKeyDefinition.
fn encode_correlation_key(x: &CorrelationKeyDefinition) -> (r: AnyValue)
    ensures
        r is Object,
{
    let mut out: Vec<(String, AnyValue)> = Vec::new();
    put(&mut out, "from", AnyValue::String(x.from.clone()));
    put_opt_string(&mut out, "expect", &x.expect);
    AnyValue::Object(out)
}

/// Reads a CorrelationKeyDefinition from its tree, found under `key`.
fn decode_correlation_key(v: &AnyValue, key: &str) -> (r: Result<CorrelationKeyDefinition, DecodeError>)
    ensures
        !(v is Object) ==> r is Err,
{
    let f = match v {
        AnyValue::Object(f) => f,
        _ => {
            return Err(wrong_type(key));
        },
    };
    let from = read_string(f, "from")?;
    let expect = read_opt_string(f, "expect")?;
    Ok(CorrelationKeyDefinition { from, expect })
}

/// The tree of a EventFilterDefinition.
fn encode_event_filter(x: &EventFilterDefinition) -> (r: AnyValue)
    ensures
        r is Object,
{
    let mut out: Vec<(String, AnyValue)> = Vec::new();
    match &x.with {
        Some(p) => put(&mut out, "with", value_pairs_value(p)),
        None => {},
    }
    match &x.correlate {
        Some(m) => put(&mut out, "correlate", encode_correlation_key_pairs(m)),
        None => {},
    }
    AnyValue::Object(out)
}

/// Reads a EventFilterDefinition from its tree, found under `key`.
fn decode_event_filter(v: &AnyValue, key: &str) -> (r: Result<EventFilterDefinition, DecodeError>)
    ensures
        !(v is Object) ==> r is Err,
{
    let f = match v {
        AnyValue::Object(f) => f,
        _ => {
            return Err(wrong_type(key));
        },
    };
    let with = read_opt_value_pairs(f, "with")?;
    let correlate = match get_child(v, "correlate") {
        Some(c) => Some(decode_correlation_key_pairs(c, "correlate")?),
        None => None,
    };
    Ok(EventFilterDefinition { with, correlate })
}

/// Reads a EventDefinition from its tree, found under `key`.
fn decode_event(v: &AnyValue, key: &str) -> (r: Result<EventDefinition, DecodeError>)
    ensures
        !(v is Object) ==> r is Err,
        forall|x: EventDefinition| #[trigger] event_tree(*v, x) ==> (r matches Ok(y) && same_tree(
            AnyValue::Object(x.with),
            AnyValue::Object(y.with),
        )),
{
    let f = match v {
        AnyValue::Object(f) => f,
        _ => {
            return Err(wrong_type(key));
        },
    };
    let with = match read_opt_value_pairs(f, "with")? {
        Some(p) => p,
        None => {
            return Err(missing("with"));
        },
    };
    proof {
        assert forall|x: EventDefinition| #[trigger] event_tree(*v, x) implies same_tree(
            AnyValue::Object(x.with),
            AnyValue::Object(with),
        ) by {
            lemma_same_tree_trans(AnyValue::Object(x.with), value_of(f@, "with"@)->0, AnyValue::Object(with));
        }
    }
    Ok(EventDefinition { with })
}

/// Reads a EventEmissionDefinition from its tree, found under `key`.
fn decode_event_emission(v: &AnyValue, key: &str) -> (r: Result<EventEmissionDefinition, DecodeError>)
    ensures
        !(v is Object) ==> r is Err,
        forall|x: EventEmissionDefinition| #[trigger] emission_tree(*v, x) ==> (r matches Ok(y) && same_tree(
            AnyValue::Object(x.event.with),
            AnyValue::Object(y.event.with),
        )),
{
    let f = match v {
        AnyValue::Object(f) => f,
        _ => {
            return Err(wrong_type(key));
        },
    };
    let event = match get_child(v, "event") {
        Some(c) => decode_event(c, "event")?,
        None => {
            return Err(missing("event"));
        },
    };
    Ok(EventEmissionDefinition { event })
}

/// Reads a ErrorDefinition from its tree, found under `key`.
fn decode_error(v: &AnyValue, key: &str) -> (r: Result<ErrorDefinition, DecodeError>)
    ensures
        !(v is Object) ==> r is Err,
        forall|e: ErrorDefinition| #[trigger] error_tree(*v, e) ==> (r matches Ok(y) && same_error(
            OneOfErrorDefinitionOrReference::Error(y),
            OneOfErrorDefinitionOrReference::Error(e),
        )),
{
    let f = match v {
        AnyValue::Object(f) => f,
        _ => {
            return Err(wrong_type(key));
        },
    };
    let type_ = read_string(f, "type")?;
    let title = read_string(f, "title")?;
    let status = match get_field(f, "status") {
        Some(x) => x.deep_clone(),
        None => {
            return Err(missing("status"));
        },
    };
    let detail = read_opt_string(f, "detail")?;
    let instance = read_opt_string(f, "instance")?;
    proof {
        assert forall|e: ErrorDefinition| #[trigger] error_tree(*v, e) implies same_tree(e.status, status) by {
            lemma_same_tree_trans(e.status, value_of(f@, "status"@)->0, status);
        }
    }
    Ok(ErrorDefinition { type_, title, status, detail, instance })
}

/// Reads a RaiseErrorDefinition from its tree, found under `key`.
fn decode_raise_error(v: &AnyValue, key: &str) -> (r: Result<RaiseErrorDefinition, DecodeError>)
    ensures
        !(v is Object) ==> r is Err,
        forall|x: RaiseErrorDefinition| #[trigger] raise_error_tree(*v, x) ==> (r matches Ok(y) && same_error(y.error, x.error)),
{
    let f = match v {
        AnyValue::Object(f) => f,
        _ => {
            return Err(wrong_type(key));
        },
    };
    let error = match get_child(v, "error") {
        Some(c) => decode_error_or_reference(c, "error")?,
        None => {
            return Err(missing("error"));
        },
    };
    Ok(RaiseErrorDefinition { error })
}

/// The tree of a RetryAttemptLimitDefinition.
fn encode_retry_attempt_limit(x: &RetryAttemptLimitDefinition) -> (r: AnyValue)
    ensures
        r is Object,
{
    let mut out: Vec<(String, AnyValue)> = Vec::new();
    match x.count {
        Some(n) => put(&mut out, "count", AnyValue::UInt(n as u64)),
        None => {},
    }
    match &x.duration {
        Some(d) => put(&mut out, "duration", encode_duration(d)),
        None => {},
    }
    AnyValue::Object(out)
}

/// Reads a RetryAttemptLimitDefinition from its tree, found under `key`.
fn decode_retry_attempt_limit(v: &AnyValue, key: &str) -> (r: Result<RetryAttemptLimitDefinition, DecodeError>)
    ensures
        !(v is Object) ==> r is Err,
{
    let f = match v {
        AnyValue::Object(f) => f,
        _ => {
            return Err(wrong_type(key));
        },
    };
    let count = match read_opt_u64(f, "count")? {
        Some(n) => {
            if n > 65535 {
                return Err(wrong_type("count"));
            }
            Some(n as u16)
        },
        None => None,
    };
    let duration = match get_child(v, "duration") {
        Some(c) => Some(decode_duration_value(c, "duration")?),
        None => None,
    };
    Ok(RetryAttemptLimitDefinition { count, duration })
}

/// The tree of a RetryPolicyLimitDefinition.
fn encode_retry_limit(x: &RetryPolicyLimitDefinition) -> (r: AnyValue)
    ensures
        r is Object,
{
    let mut out: Vec<(String, AnyValue)> = Vec::new();
    match &x.attempt {
        Some(s) => put(&mut out, "attempt", encode_retry_attempt_limit(s)),
        None => {},
    }
    match &x.duration {
        Some(d) => put(&mut out, "duration", encode_duration(d)),
        None => {},
    }
    AnyValue::Object(out)
}

/// Reads a RetryPolicyLimitDefinition from its tree, found under `key`.
fn decode_retry_limit(v: &AnyValue, key: &str) -> (r: Result<RetryPolicyLimitDefinition, DecodeError>)
    ensures
        !(v is Object) ==> r is Err,
{
    let f = match v {
        AnyValue::Object(f) => f,
        _ => {
            return Err(wrong_type(key));
        },
    };
    let attempt = match get_child(v, "attempt") {
        Some(c) => Some(decode_retry_attempt_limit(c, "attempt")?),
        None => None,
    };
    let duration = match get_child(v, "duration") {
        Some(c) => Some(decode_duration_value(c, "duration")?),
        None => None,
    };
    Ok(RetryPolicyLimitDefinition { attempt, duration })
}

/// The tree of a ConstantBackoffDefinition.
fn encode_constant_backoff(x: &ConstantBackoffDefinition) -> (r: AnyValue)
    ensures
        r is Object,
{
    let mut out: Vec<(String, AnyValue)> = Vec::new();
    AnyValue::Object(out)
}

/// Reads a ConstantBackoffDefinition from its tree, found under `key`.
fn decode_constant_backoff(v: &AnyValue, key: &str) -> (r: Result<ConstantBackoffDefinition, DecodeError>)
    ensures
        !(v is Object) ==> r is Err,
{
    let f = match v {
        AnyValue::Object(f) => f,
        _ => {
            return Err(wrong_type(key));
        },
    };
    Ok(ConstantBackoffDefinition {  })
}

/// The tree of a ExponentialBackoffDefinition.
fn encode_exponential_backoff(x: &ExponentialBackoffDefinition) -> (r: AnyValue)
    ensures
        r is Object,
{
    let mut out: Vec<(String, AnyValue)> = Vec::new();
    AnyValue::Object(out)
}

/// Reads a ExponentialBackoffDefinition from its tree, found under `key`.
fn decode_exponential_backoff(v: &AnyValue, key: &str) -> (r: Result<ExponentialBackoffDefinition, DecodeError>)
    ensures
        !(v is Object) ==> r is Err,
{
    let f = match v {
        AnyValue::Object(f) => f,
        _ => {
            return Err(wrong_type(key));
        },
    };
    Ok(ExponentialBackoffDefinition {  })
}

/// The tree of a LinearBackoffDefinition.
fn encode_linear_backoff(x: &LinearBackoffDefinition) -> (r: AnyValue)
    ensures
        r is Object,
{
    let mut out: Vec<(String, AnyValue)> = Vec::new();
    match &x.increment {
        Some(d) => put(&mut out, "increment", encode_duration(d)),
        None => {},
    }
    AnyValue::Object(out)
}

/// Reads a LinearBackoffDefinition from its tree, found under `key`.
fn decode_linear_backoff(v: &AnyValue, key: &str) -> (r: Result<LinearBackoffDefinition, DecodeError>)
    ensures
        !(v is Object) ==> r is Err,
{
    let f = match v {
        AnyValue::Object(f) => f,
        _ => {
            return Err(wrong_type(key));
        },
    };
    let increment = match get_child(v, "increment") {
        Some(c) => Some(decode_duration_value(c, "increment")?),
        None => None,
    };
    Ok(LinearBackoffDefinition { increment })
}

/// The tree of a BackoffStrategyDefinition.
fn encode_backoff(x: &BackoffStrategyDefinition) -> (r: AnyValue)
    ensures
        r is Object,
{
    let mut out: Vec<(String, AnyValue)> = Vec::new();
    match &x.constant {
        Some(s) => put(&mut out, "constant", encode_constant_backoff(s)),
        None => {},
    }
    match &x.exponential {
        Some(s) => put(&mut out, "exponential", encode_exponential_backoff(s)),
        None => {},
    }
    match &x.linear {
        Some(s) => put(&mut out, "linear", encode_linear_backoff(s)),
        None => {},
    }
    AnyValue::Object(out)
}

/// Reads a BackoffStrategyDefinition from its tree, found under `key`.
fn decode_backoff(v: &AnyValue, key: &str) -> (r: Result<BackoffStrategyDefinition, DecodeError>)
    ensures
        !(v is Object) ==> r is Err,
{
    let f = match v {
        AnyValue::Object(f) => f,
        _ => {
            return Err(wrong_type(key));
        },
    };
    let constant = match get_child(v, "constant") {
        Some(c) => Some(decode_constant_backoff(c, "constant")?),
        None => None,
    };
    let exponential = match get_child(v, "exponential") {
        Some(c) => Some(decode_exponential_backoff(c, "exponential")?),
        None => None,
    };
    let linear = match get_child(v, "linear") {
        Some(c) => Some(decode_linear_backoff(c, "linear")?),
        None => None,
    };
    Ok(BackoffStrategyDefinition { constant, exponential, linear })
}

/// The tree of a JitterDefinition.
fn encode_jitter(x: &JitterDefinition) -> (r: AnyValue)
    ensures
        r is Object,
{
    let mut out: Vec<(String, AnyValue)> = Vec::new();
    put(&mut out, "from", encode_duration(&x.from));
    put(&mut out, "to", encode_duration(&x.to));
    AnyValue::Object(out)
}

/// Reads a JitterDefinition from its tree, found under `key`.
fn decode_jitter(v: &AnyValue, key: &str) -> (r: Result<JitterDefinition, DecodeError>)
    ensures
        !(v is Object) ==> r is Err,
{
    let f = match v {
        AnyValue::Object(f) => f,
        _ => {
            return Err(wrong_type(key));
        },
    };
    let from = match get_child(v, "from") {
        Some(c) => decode_duration_value(c, "from")?,
        None => {
            return Err(missing("from"));
        },
    };
    let to = match get_child(v, "to") {
        Some(c) => decode_duration_value(c, "to")?,
        None => {
            return Err(missing("to"));
        },
    };
    Ok(JitterDefinition { from, to })
}

/// The tree of a RetryPolicyDefinition.
fn encode_retry_policy(x: &RetryPolicyDefinition) -> (r: AnyValue)
    ensures
        r is Object,
{
    let mut out: Vec<(String, AnyValue)> = Vec::new();
    put_opt_string(&mut out, "when", &x.when);
    put_opt_string(&mut out, "exceptWhen", &x.except_when);
    match &x.limit {
        Some(s) => put(&mut out, "limit", encode_retry_limit(s)),
        None => {},
    }
    match &x.delay {
        Some(d) => put(&mut out, "delay", encode_duration(d)),
        None => {},
    }
    match &x.backoff {
        Some(s) => put(&mut out, "backoff", encode_backoff(s)),
        None => {},
    }
    match &x.jitter {
        Some(s) => put(&mut out, "jitter", encode_jitter(s)),
        None => {},
    }
    AnyValue::Object(out)
}

/// Reads a RetryPolicyDefinition from its tree, found under `key`.
fn decode_retry_policy(v: &AnyValue, key: &str) -> (r: Result<RetryPolicyDefinition, DecodeError>)
    ensures
        !(v is Object) ==> r is Err,
{
    let f = match v {
        AnyValue::Object(f) => f,
        _ => {
            return Err(wrong_type(key));
        },
    };
    let when = read_opt_string(f, "when")?;
    let except_when = read_opt_string(f, "exceptWhen")?;
    let limit = match get_child(v, "limit") {
        Some(c) => Some(decode_retry_limit(c, "limit")?),
        None => None,
    };
    let delay = match get_child(v, "delay") {
        Some(c) => Some(decode_duration_value(c, "delay")?),
        None => None,
    };
    let backoff = match get_child(v, "backoff") {
        Some(c) => Some(decode_backoff(c, "backoff")?),
        None => None,
    };
    let jitter = match get_child(v, "jitter") {
        Some(c) => Some(decode_jitter(c, "jitter")?),
        None => None,
    };
    Ok(RetryPolicyDefinition { when, except_when, limit, delay, backoff, jitter })
}

/// The tree of a ErrorFilterDefinition.
fn encode_error_filter(x: &ErrorFilterDefinition) -> (r: AnyValue)
    ensures
        r is Object,
{
    let mut out: Vec<(String, AnyValue)> = Vec::new();
    match &x.with {
        Some(p) => put(&mut out, "with", value_pairs_value(p)),
        None => {},
    }
    AnyValue::Object(out)
}

/// Reads a ErrorFilterDefinition from its tree, found under `key`.
fn decode_error_filter(v: &AnyValue, key: &str) -> (r: Result<ErrorFilterDefinition, DecodeError>)
    ensures
        !(v is Object) ==> r is Err,
{
    let f = match v {
        AnyValue::Object(f) => f,
        _ => {
            return Err(wrong_type(key));
        },
    };
    let with = read_opt_value_pairs(f, "with")?;
    Ok(ErrorFilterDefinition { with })
}

/// The tree of a ContainerProcessDefinition.
fn encode_container_process(x: &ContainerProcessDefinition) -> (r: AnyValue)
    ensures
        r is Object,
{
    let mut out: Vec<(String, AnyValue)> = Vec::new();
    put(&mut out, "image", AnyValue::String(x.image.clone()));
    put_opt_string(&mut out, "name", &x.name);
    put_opt_string(&mut out, "command", &x.command);
    match &x.ports {
        Some(p) => put(&mut out, "ports", ports_value(p)),
        None => {},
    }
    match &x.volumes {
        Some(p) => put(&mut out, "volumes", string_pairs_value(p)),
        None => {},
    }
    match &x.environment {
        Some(p) => put(&mut out, "environment", string_pairs_value(p)),
        None => {},
    }
    AnyValue::Object(out)
}

/// Reads a ContainerProcessDefinition from its tree, found under `key`.
fn decode_container_process(v: &AnyValue, key: &str) -> (r: Result<ContainerProcessDefinition, DecodeError>)
    ensures
        !(v is Object) ==> r is Err,
{
    let f = match v {
        AnyValue::Object(f) => f,
        _ => {
            return Err(wrong_type(key));
        },
    };
    let image = read_string(f, "image")?;
    let name = read_opt_string(f, "name")?;
    let command = read_opt_string(f, "command")?;
    let ports = match get_child(v, "ports") {
        Some(c) => Some(decode_ports(c, "ports")?),
        None => None,
    };
    let volumes = read_opt_string_pairs(f, "volumes")?;
    let environment = read_opt_string_pairs(f, "environment")?;
    Ok(ContainerProcessDefinition { image, name, command, ports, volumes, environment })
}

/// The tree of a ScriptProcessDefinition.
fn encode_script_process(x: &ScriptProcessDefinition) -> (r: AnyValue)
    ensures
        r is Object,
{
    let mut out: Vec<(String, AnyValue)> = Vec::new();
    put(&mut out, "language", AnyValue::String(x.language.clone()));
    put_opt_string(&mut out, "code", &x.code);
    match &x.source {
        Some(s) => put(&mut out, "source", encode_external_resource(s)),
        None => {},
    }
    put_opt_string(&mut out, "stdin", &x.stdin);
    match &x.arguments {
        Some(l) => put(&mut out, "arguments", string_list_value(l)),
        None => {},
    }
    match &x.environment {
        Some(p) => put(&mut out, "environment", string_pairs_value(p)),
        None => {},
    }
    AnyValue::Object(out)
}

/// Reads a ScriptProcessDefinition from its tree, found under `key`.
pub fn decode_script_process(v: &AnyValue, key: &str) -> (r: Result<ScriptProcessDefinition, DecodeError>)
    ensures
        !(v is Object) ==> r is Err,
        r matches Ok(p) ==> value_of(fields_of(*v), "language"@) == Some(AnyValue::String(p.language))
            && opt_string_field(fields_of(*v), "code"@) == Ok::<Option<String>, ()>(p.code)
            && opt_string_field(fields_of(*v), "stdin"@) == Ok::<Option<String>, ()>(p.stdin),
        v is Object && text_at(fields_of(*v), "language"@) is Some && opt_string_field(fields_of(*v), "code"@) is Ok
            && opt_string_field(fields_of(*v), "stdin"@) is Ok && value_of(fields_of(*v), "source"@) is None
            && string_list_field_ok(fields_of(*v), "arguments"@)
            && string_pairs_field_ok(fields_of(*v), "environment"@) ==> (r matches Ok(p)
            && p.language == text_at(fields_of(*v), "language"@)->0
            && p.code == opt_string_field(fields_of(*v), "code"@)->Ok_0
            && p.stdin == opt_string_field(fields_of(*v), "stdin"@)->Ok_0 && p.source is None),
        r matches Ok(p) ==> match value_of(fields_of(*v), "arguments"@) {
            Some(AnyValue::Array(items)) => p.arguments is Some && p.arguments->0@.len() == items@.len()
                && forall|i: int| 0 <= i < items@.len() ==> items@[i] == AnyValue::String(#[trigger] p.arguments->0@[i]),
            _ => p.arguments is None,
        },
        r matches Ok(p) ==> match value_of(fields_of(*v), "environment"@) {
            Some(AnyValue::Object(items)) => p.environment is Some && p.environment->0@.len() == items@.len()
                && forall|i: int| 0 <= i < items@.len() ==> items@[i] == (#[trigger] p.environment->0@[i].0,
                    AnyValue::String(p.environment->0@[i].1)),
            _ => p.environment is None,
        },
{
    let f = match v {
        AnyValue::Object(f) => f,
        _ => {
            return Err(wrong_type(key));
        },
    };
    let language = read_string(f, "language")?;
    let code = read_opt_string(f, "code")?;
    let source = match get_child(v, "source") {
        Some(c) => Some(decode_external_resource(c, "source")?),
        None => None,
    };
    let stdin = read_opt_string(f, "stdin")?;
    let arguments = read_opt_string_list(f, "arguments")?;
    let environment = read_opt_string_pairs(f, "environment")?;
    Ok(ScriptProcessDefinition { language, code, source, stdin, arguments, environment })
}

/// The tree of a ShellProcessDefinition.
fn encode_shell_process(x: &ShellProcessDefinition) -> (r: AnyValue)
    ensures
        r is Object,
{
    let mut out: Vec<(String, AnyValue)> = Vec::new();
    put(&mut out, "command", AnyValue::String(x.command.clone()));
    match &x.arguments {
        Some(l) => put(&mut out, "arguments", string_list_value(l)),
        None => {},
    }
    match &x.environment {
        Some(p) => put(&mut out, "environment", string_pairs_value(p)),
        None => {},
    }
    AnyValue::Object(out)
}

/// Reads a ShellProcessDefinition from its tree, found under `key`.
fn decode_shell_process(v: &AnyValue, key: &str) -> (r: Result<ShellProcessDefinition, DecodeError>)
    ensures
        !(v is Object) ==> r is Err,
{
    let f = match v {
        AnyValue::Object(f) => f,
        _ => {
            return Err(wrong_type(key));
        },
    };
    let command = read_string(f, "command")?;
    let arguments = read_opt_string_list(f, "arguments")?;
    let environment = read_opt_string_pairs(f, "environment")?;
    Ok(ShellProcessDefinition { command, arguments, environment })
}

/// The tree of a WorkflowProcessDefinition.
fn encode_workflow_process(x: &WorkflowProcessDefinition) -> (r: AnyValue)
    ensures
        r is Object,
{
    let mut out: Vec<(String, AnyValue)> = Vec::new();
    put(&mut out, "namespace", AnyValue::String(x.namespace.clone()));
    put(&mut out, "name", AnyValue::String(x.name.clone()));
    put(&mut out, "version", AnyValue::String(x.version.clone()));
    put_opt_value(&mut out, "input", &x.input);
    AnyValue::Object(out)
}

/// Reads a WorkflowProcessDefinition from its tree, found under `key`.
fn decode_workflow_process(v: &AnyValue, key: &str) -> (r: Result<WorkflowProcessDefinition, DecodeError>)
    ensures
        !(v is Object) ==> r is Err,
{
    let f = match v {
        AnyValue::Object(f) => f,
        _ => {
            return Err(wrong_type(key));
        },
    };
    let namespace = read_string(f, "namespace")?;
    let name = read_string(f, "name")?;
    let version = read_string(f, "version")?;
    let input = read_opt_value(f, "input");
    Ok(WorkflowProcessDefinition { namespace, name, version, input })
}

/// The tree of a ProcessTypeDefinition.
fn encode_process_type(x: &ProcessTypeDefinition) -> (r: AnyValue)
    ensures
        r is Object,
{
    let mut out: Vec<(String, AnyValue)> = Vec::new();
    match &x.container {
        Some(s) => put(&mut out, "container", encode_container_process(s)),
        None => {},
    }
    match &x.script {
        Some(s) => put(&mut out, "script", encode_script_process(s)),
        None => {},
    }
    match &x.shell {
        Some(s) => put(&mut out, "shell", encode_shell_process(s)),
        None => {},
    }
    match &x.workflow {
        Some(s) => put(&mut out, "workflow", encode_workflow_process(s)),
        None => {},
    }
    put_opt_bool(&mut out, "await", x.await_);
    AnyValue::Object(out)
}

/// Reads a ProcessTypeDefinition from its tree, found under `key`.
fn decode_process_type(v: &AnyValue, key: &str) -> (r: Result<ProcessTypeDefinition, DecodeError>)
    ensures
        !(v is Object) ==> r is Err,
{
    let f = match v {
        AnyValue::Object(f) => f,
        _ => {
            return Err(wrong_type(key));
        },
    };
    let container = match get_child(v, "container") {
        Some(c) => Some(decode_container_process(c, "container")?),
        None => None,
    };
    let script = match get_child(v, "script") {
        Some(c) => Some(decode_script_process(c, "script")?),
        None => None,
    };
    let shell = match get_child(v, "shell") {
        Some(c) => Some(decode_shell_process(c, "shell")?),
        None => None,
    };
    let workflow = match get_child(v, "workflow") {
        Some(c) => Some(decode_workflow_process(c, "workflow")?),
        None => None,
    };
    let await_ = read_opt_bool(f, "await")?;
    Ok(ProcessTypeDefinition { container, script, shell, workflow, await_ })
}

/// Reads a SwitchCaseDefinition from its tree, found under `key`.
fn decode_switch_case(v: &AnyValue, key: &str) -> (r: Result<SwitchCaseDefinition, DecodeError>)
    ensures
        !(v is Object) ==> r is Err,
        forall|c: SwitchCaseDefinition| #[trigger] case_tree(*v, c) ==> r == Ok::<SwitchCaseDefinition, DecodeError>(c),
{
    let f = match v {
        AnyValue::Object(f) => f,
        _ => {
            return Err(wrong_type(key));
        },
    };
    let when = read_opt_string(f, "when")?;
    let then_ = read_opt_string(f, "then")?;
    Ok(SwitchCaseDefinition { when, then_ })
}

/// Reads a ForLoopDefinition from its tree, found under `key`.
pub fn decode_for_loop(v: &AnyValue, key: &str) -> (r: Result<ForLoopDefinition, DecodeError>)
    ensures
        !(v is Object) ==> r is Err,
        forall|y: ForLoopDefinition| #[trigger] loop_tree(*v, y) ==> r == Ok::<ForLoopDefinition, DecodeError>(y),
        r matches Ok(l) ==> value_of(fields_of(*v), "each"@) == Some(AnyValue::String(l.each))
            && value_of(fields_of(*v), "in"@) == Some(AnyValue::String(l.in_))
            && opt_string_field(fields_of(*v), "at"@) == Ok::<Option<String>, ()>(l.at),
        v is Object && text_at(fields_of(*v), "each"@) is Some && text_at(fields_of(*v), "in"@) is Some
            && opt_string_field(fields_of(*v), "at"@) is Ok && value_of(fields_of(*v), "input"@) is None
            ==> r == Ok::<ForLoopDefinition, DecodeError>(ForLoopDefinition {
                each: text_at(fields_of(*v), "each"@)->0,
                in_: text_at(fields_of(*v), "in"@)->0,
                at: opt_string_field(fields_of(*v), "at"@)->Ok_0,
                input: None,
            }),
{
    proof {
        lemma_key_texts();
    }
    let f = match v {
        AnyValue::Object(f) => f,
        _ => {
            return Err(wrong_type(key));
        },
    };
    let each = read_string(f, "each")?;
    let in_ = read_string(f, "in")?;
    let at = read_opt_string(f, "at")?;
    let input = match get_child(v, "input") {
        Some(c) => Some(decode_input_data_model(c, "input")?),
        None => None,
    };
    Ok(ForLoopDefinition { each, in_, at, input })
}

/// The tree of a EventConsumptionStrategyDefinition.
fn encode_consumption_strategy(x: &EventConsumptionStrategyDefinition) -> (r: AnyValue)
    ensures
        r is Object,
    decreases x,
{
    let mut out: Vec<(String, AnyValue)> = Vec::new();
    match &x.all {
        Some(l) => put(&mut out, "all", encode_event_filter_list(l)),
        None => {},
    }
    match &x.any {
        Some(l) => put(&mut out, "any", encode_event_filter_list(l)),
        None => {},
    }
    match &x.one {
        Some(s) => put(&mut out, "one", encode_event_filter(s)),
        None => {},
    }
    match &x.until {
        Some(u) => put(&mut out, "until", encode_until(u)),
        None => {},
    }
    AnyValue::Object(out)
}

/// Reads a EventConsumptionStrategyDefinition from its tree, found under `key`.
fn decode_consumption_strategy(v: &AnyValue, key: &str) -> (r: Result<EventConsumptionStrategyDefinition, DecodeError>)
    ensures
        !(v is Object) ==> r is Err,
    decreases v, 1int,
{
    let f = match v {
        AnyValue::Object(f) => f,
        _ => {
            return Err(wrong_type(key));
        },
    };
    let all = match get_child(v, "all") {
        Some(c) => Some(decode_event_filter_list(c, "all")?),
        None => None,
    };
    let any = match get_child(v, "any") {
        Some(c) => Some(decode_event_filter_list(c, "any")?),
        None => None,
    };
    let one = match get_child(v, "one") {
        Some(c) => Some(decode_event_filter(c, "one")?),
        None => None,
    };
    let until = match get_child(v, "until") {
        Some(c) => Some(decode_until(c, "until")?),
        None => None,
    };
    Ok(EventConsumptionStrategyDefinition { all, any, one, until })
}

/// The tree of a ListenerDefinition.
fn encode_listener(x: &ListenerDefinition) -> (r: AnyValue)
    ensures
        r is Object,
{
    let mut out: Vec<(String, AnyValue)> = Vec::new();
    put(&mut out, "to", encode_consumption_strategy(&x.to));
    put_opt_string(&mut out, "read", &x.read);
    AnyValue::Object(out)
}

/// Reads a ListenerDefinition from its tree, found under `key`.
fn decode_listener(v: &AnyValue, key: &str) -> (r: Result<ListenerDefinition, DecodeError>)
    ensures
        !(v is Object) ==> r is Err,
{
    let f = match v {
        AnyValue::Object(f) => f,
        _ => {
            return Err(wrong_type(key));
        },
    };
    let to = match get_child(v, "to") {
        Some(c) => decode_consumption_strategy(c, "to")?,
        None => {
            return Err(missing("to"));
        },
    };
    let read = read_opt_string(f, "read")?;
    Ok(ListenerDefinition { to, read })
}

/// Reads a BranchingDefinition from its tree, found under `key`.
fn decode_branching(v: &AnyValue, key: &str) -> (r: Result<BranchingDefinition, DecodeError>)
    ensures
        !(v is Object) ==> r is Err,
        forall|x: BranchingDefinition| #[trigger] branching_tree(*v, x) ==> (r matches Ok(y) && y.compete == x.compete
            && same_map(y.branches@, x.branches@)),
    decreases v, 1int,
{
    let f = match v {
        AnyValue::Object(f) => f,
        _ => {
            return Err(wrong_type(key));
        },
    };
    let branches = match get_child(v, "branches") {
        Some(c) => decode_task_map(c, "branches")?,
        None => {
            return Err(missing("branches"));
        },
    };
    let compete = match read_opt_bool(f, "compete")? {
        Some(b) => b,
        None => false,
    };
    Ok(BranchingDefinition { branches, compete })
}

/// The tree of a SubscriptionIteratorDefinition.
fn encode_subscription_iterator(x: &SubscriptionIteratorDefinition) -> (r: AnyValue)
    ensures
        r is Object,
    decreases x,
{
    let mut out: Vec<(String, AnyValue)> = Vec::new();
    put_opt_string(&mut out, "item", &x.item);
    put_opt_string(&mut out, "at", &x.at);
    match &x.do_ {
        Some(m) => put(&mut out, "do", encode_task_map(m)),
        None => {},
    }
    match &x.output {
        Some(s) => put(&mut out, "output", encode_output_data_model(s)),
        None => {},
    }
    match &x.export {
        Some(s) => put(&mut out, "export", encode_output_data_model(s)),
        None => {},
    }
    AnyValue::Object(out)
}

/// Reads a SubscriptionIteratorDefinition from its tree, found under `key`.
fn decode_subscription_iterator(v: &AnyValue, key: &str) -> (r: Result<SubscriptionIteratorDefinition, DecodeError>)
    ensures
        !(v is Object) ==> r is Err,
    decreases v, 1int,
{
    let f = match v {
        AnyValue::Object(f) => f,
        _ => {
            return Err(wrong_type(key));
        },
    };
    let item = read_opt_string(f, "item")?;
    let at = read_opt_string(f, "at")?;
    let do_ = match get_child(v, "do") {
        Some(c) => Some(decode_task_map(c, "do")?),
        None => None,
    };
    let output = match get_child(v, "output") {
        Some(c) => Some(decode_output_data_model(c, "output")?),
        None => None,
    };
    let export = match get_child(v, "export") {
        Some(c) => Some(decode_output_data_model(c, "export")?),
        None => None,
    };
    Ok(SubscriptionIteratorDefinition { item, at, do_, output, export })
}

/// The tree of a ErrorCatcherDefinition.
fn encode_error_catcher(x: &ErrorCatcherDefinition) -> (r: AnyValue)
    ensures
        r is Object,
    decreases x,
{
    let mut out: Vec<(String, AnyValue)> = Vec::new();
    match &x.errors {
        Some(s) => put(&mut out, "errors", encode_error_filter(s)),
        None => {},
    }
    put_opt_string(&mut out, "as", &x.as_);
    put_opt_string(&mut out, "when", &x.when);
    put_opt_string(&mut out, "exceptWhen", &x.except_when);
    match &x.retry {
        Some(p) => put(&mut out, "retry", encode_retry_or_reference(p)),
        None => {},
    }
    match &x.do_ {
        Some(m) => put(&mut out, "do", encode_task_map(m)),
        None => {},
    }
    AnyValue::Object(out)
}

/// Reads a ErrorCatcherDefinition from its tree, found under `key`.
fn decode_error_catcher(v: &AnyValue, key: &str) -> (r: Result<ErrorCatcherDefinition, DecodeError>)
    ensures
        !(v is Object) ==> r is Err,
    decreases v, 1int,
{
    let f = match v {
        AnyValue::Object(f) => f,
        _ => {
            return Err(wrong_type(key));
        },
    };
    let errors = match get_child(v, "errors") {
        Some(c) => Some(decode_error_filter(c, "errors")?),
        None => None,
    };
    let as_ = read_opt_string(f, "as")?;
    let when = read_opt_string(f, "when")?;
    let except_when = read_opt_string(f, "exceptWhen")?;
    let retry = match get_child(v, "retry") {
        Some(c) => Some(decode_retry_or_reference(c, "retry")?),
        None => None,
    };
    let do_ = match get_child(v, "do") {
        Some(c) => Some(decode_task_map(c, "do")?),
        None => None,
    };
    Ok(ErrorCatcherDefinition { errors, as_, when, except_when, retry, do_ })
}

/// Reads a CallTaskDefinition from its tree, found under `key`.
fn decode_call_task(v: &AnyValue, key: &str) -> (r: Result<CallTaskDefinition, DecodeError>)
    ensures
        !(v is Object) ==> r is Err,
        forall|x: CallTaskDefinition| #[trigger] call_tree(*v, x) && simple_common(x.common) && common_tree(fields_of(*v), x.common) ==> (r matches Ok(y)
            && same_task(TaskDefinition::Call(y), TaskDefinition::Call(x))),
        r matches Ok(t) ==> value_of(fields_of(*v), "call"@) == Some(AnyValue::String(t.call)),
        plain_text_field(*v, "call"@) is Some ==> r == Ok::<CallTaskDefinition, DecodeError>(
            CallTaskDefinition { call: plain_text_field(*v, "call"@)->0, with: None, await_: None, common: no_fields() }),
    decreases v, 1int,
{
    proof {
        assert forall|x: CallTaskDefinition| #[trigger] call_tree(*v, x) && simple_common(x.common) && common_tree(fields_of(*v), x.common) implies common_read_ok(fields_of(*v)) && common_from(fields_of(*v)) == x.common by {
            lemma_common_round_trip(fields_of(*v), x.common);
        }
        lemma_key_texts();
        if single_field(*v, "call"@) is Some {
            lemma_single_field(*v, "call"@);
        }
    }
    let f = match v {
        AnyValue::Object(f) => f,
        _ => {
            return Err(wrong_type(key));
        },
    };
    let call = read_string(f, "call")?;
    let with = read_opt_value_pairs(f, "with")?;
    let await_ = read_opt_bool(f, "await")?;
    let common = decode_common_from(f)?;
    proof {
        assert forall|x: CallTaskDefinition| #[trigger] call_tree(*v, x) && simple_common(x.common) && common_tree(fields_of(*v), x.common) implies same_task(
            TaskDefinition::Call(CallTaskDefinition { call, with, await_, common }),
            TaskDefinition::Call(x),
        ) by {
            if x.with is Some {
                lemma_same_tree_trans(
                    AnyValue::Object(x.with->0),
                    value_of(f@, "with"@)->0,
                    AnyValue::Object(with->0),
                );
            }
        }
    }
    Ok(CallTaskDefinition { call, with, await_, common })
}

/// Reads a DoTaskDefinition from its tree, found under `key`.
fn decode_do_task(v: &AnyValue, key: &str) -> (r: Result<DoTaskDefinition, DecodeError>)
    ensures
        !(v is Object) ==> r is Err,
        r matches Ok(t) ==> value_of(fields_of(*v), "do"@) matches Some(d) && d is Array
            && singleton_names(d->Array_0@) == entry_names(t.do_@),
        forall|t: TaskDefinition| #[trigger] task_tree(*v, t) && t is Do ==> (r matches Ok(y)
            && same_task(TaskDefinition::Do(y), t)),
    decreases v, 1int,
{
    proof {
        lemma_key_texts();
        assert forall|t: TaskDefinition| #[trigger] task_tree(*v, t) && t is Do implies value_of(fields_of(*v), "do"@)
            is Some && value_of(fields_of(*v), "do"@)->0 is Array && map_tree(
            value_of(fields_of(*v), "do"@)->0->Array_0@,
            t->Do_0.do_@,
        ) && common_read_ok(fields_of(*v)) && common_from(fields_of(*v)) == t->Do_0.common by {
            assert(t == TaskDefinition::Do(t->Do_0));
            lemma_common_round_trip(fields_of(*v), t->Do_0.common);
        }
    }
    let f = match v {
        AnyValue::Object(f) => f,
        _ => {
            return Err(wrong_type(key));
        },
    };
    let do_ = match get_child(v, "do") {
        Some(c) => decode_task_map(c, "do")?,
        None => {
            return Err(missing("do"));
        },
    };
    let common = decode_common_from(f)?;
    proof {
        assert forall|t: TaskDefinition| #[trigger] task_tree(*v, t) && t is Do implies same_task(
            TaskDefinition::Do(DoTaskDefinition { do_, common }),
            t,
        ) by {
            assert(t == TaskDefinition::Do(t->Do_0));
        }
    }
    Ok(DoTaskDefinition { do_, common })
}

/// Reads a EmitTaskDefinition from its tree, found under `key`.
fn decode_emit_task(v: &AnyValue, key: &str) -> (r: Result<EmitTaskDefinition, DecodeError>)
    ensures
        !(v is Object) ==> r is Err,
        forall|t: TaskDefinition| #[trigger] task_tree(*v, t) && t is Emit ==> (r matches Ok(y)
            && same_task(TaskDefinition::Emit(y), t)),
    decreases v, 1int,
{
    proof {
        lemma_key_texts();
        assert forall|t: TaskDefinition| #[trigger] task_tree(*v, t) && t is Emit implies value_of(fields_of(*v), "emit"@)
            is Some && emission_tree(value_of(fields_of(*v), "emit"@)->0, t->Emit_0.emit)
            && common_read_ok(fields_of(*v)) && common_from(fields_of(*v)) == t->Emit_0.common by {
            assert(t == TaskDefinition::Emit(t->Emit_0));
            lemma_common_round_trip(fields_of(*v), t->Emit_0.common);
        }
    }
    let f = match v {
        AnyValue::Object(f) => f,
        _ => {
            return Err(wrong_type(key));
        },
    };
    let emit = match get_child(v, "emit") {
        Some(c) => decode_event_emission(c, "emit")?,
        None => {
            return Err(missing("emit"));
        },
    };
    let common = decode_common_from(f)?;
    proof {
        assert forall|t: TaskDefinition| #[trigger] task_tree(*v, t) && t is Emit implies same_task(
            TaskDefinition::Emit(EmitTaskDefinition { emit, common }),
            t,
        ) by {
            assert(t == TaskDefinition::Emit(t->Emit_0));
        }
    }
    Ok(EmitTaskDefinition { emit, common })
}

/// Reads a ForTaskDefinition from its tree, found under `key`.
fn decode_for_task(v: &AnyValue, key: &str) -> (r: Result<ForTaskDefinition, DecodeError>)
    ensures
        !(v is Object) ==> r is Err,
        r matches Ok(t) ==> value_of(fields_of(*v), "do"@) matches Some(d) && d is Array
            && singleton_names(d->Array_0@) == entry_names(t.do_@),
        forall|t: TaskDefinition| #[trigger] task_tree(*v, t) && t is For ==> (r matches Ok(y)
            && same_task(TaskDefinition::For(y), t)),
    decreases v, 1int,
{
    proof {
        lemma_key_texts();
        assert forall|t: TaskDefinition| #[trigger] task_tree(*v, t) && t is For implies value_of(fields_of(*v), "do"@)
            is Some && value_of(fields_of(*v), "do"@)->0 is Array && map_tree(
            value_of(fields_of(*v), "do"@)->0->Array_0@,
            t->For_0.do_@,
        ) && value_of(fields_of(*v), "for"@) is Some && loop_tree(value_of(fields_of(*v), "for"@)->0, t->For_0.for_)
            && opt_string_field(fields_of(*v), "while"@) == Ok::<Option<String>, ()>(t->For_0.while_)
            && common_read_ok(fields_of(*v)) && common_from(fields_of(*v)) == t->For_0.common by {
            assert(t == TaskDefinition::For(t->For_0));
            lemma_common_round_trip(fields_of(*v), t->For_0.common);
        }
    }
    let f = match v {
        AnyValue::Object(f) => f,
        _ => {
            return Err(wrong_type(key));
        },
    };
    let for_ = match get_child(v, "for") {
        Some(c) => decode_for_loop(c, "for")?,
        None => {
            return Err(missing("for"));
        },
    };
    let while_ = read_opt_string(f, "while")?;
    let do_ = match get_child(v, "do") {
        Some(c) => decode_task_map(c, "do")?,
        None => {
            return Err(missing("do"));
        },
    };
    let common = decode_common_from(f)?;
    proof {
        assert forall|t: TaskDefinition| #[trigger] task_tree(*v, t) && t is For implies same_task(
            TaskDefinition::For(ForTaskDefinition { for_, while_, do_, common }),
            t,
        ) by {
            assert(t == TaskDefinition::For(t->For_0));
        }
    }
    Ok(ForTaskDefinition { for_, while_, do_, common })
}

/// Reads a ForkTaskDefinition from its tree, found under `key`.
fn decode_fork_task(v: &AnyValue, key: &str) -> (r: Result<ForkTaskDefinition, DecodeError>)
    ensures
        !(v is Object) ==> r is Err,
        forall|t: TaskDefinition| #[trigger] task_tree(*v, t) && t is Fork ==> (r matches Ok(y)
            && same_task(TaskDefinition::Fork(y), t)),
    decreases v, 1int,
{
    proof {
        lemma_key_texts();
        assert forall|t: TaskDefinition| #[trigger] task_tree(*v, t) && t is Fork implies value_of(fields_of(*v), "fork"@)
            is Some && branching_tree(value_of(fields_of(*v), "fork"@)->0, t->Fork_0.fork)
            && common_read_ok(fields_of(*v)) && common_from(fields_of(*v)) == t->Fork_0.common by {
            assert(t == TaskDefinition::Fork(t->Fork_0));
            lemma_common_round_trip(fields_of(*v), t->Fork_0.common);
        }
    }
    let f = match v {
        AnyValue::Object(f) => f,
        _ => {
            return Err(wrong_type(key));
        },
    };
    let fork = match get_child(v, "fork") {
        Some(c) => decode_branching(c, "fork")?,
        None => {
            return Err(missing("fork"));
        },
    };
    let common = decode_common_from(f)?;
    proof {
        assert forall|t: TaskDefinition| #[trigger] task_tree(*v, t) && t is Fork implies same_task(
            TaskDefinition::Fork(ForkTaskDefinition { fork, common }),
            t,
        ) by {
            assert(t == TaskDefinition::Fork(t->Fork_0));
        }
    }
    Ok(ForkTaskDefinition { fork, common })
}

/// The tree of a ListenTaskDefinition.
fn encode_listen_task(x: &ListenTaskDefinition) -> (r: AnyValue)
    ensures
        r is Object,
        keys_within(r->Object_0@, set!["listen"@, "foreach"@].union(common_keys())),
        has_key(r->Object_0@, "listen"@),
    decreases x,
{
    let mut out: Vec<(String, AnyValue)> = Vec::new();
    put(&mut out, "listen", encode_listener(&x.listen));
    match &x.foreach {
        Some(s) => put(&mut out, "foreach", encode_subscription_iterator(s)),
        None => {},
    }
    encode_common_into(&x.common, &mut out);
    proof {
        assert(out@[0].0@ == "listen"@);
    }
    AnyValue::Object(out)
}

/// Reads a ListenTaskDefinition from its tree, found under `key`.
fn decode_listen_task(v: &AnyValue, key: &str) -> (r: Result<ListenTaskDefinition, DecodeError>)
    ensures
        !(v is Object) ==> r is Err,
    decreases v, 1int,
{
    let f = match v {
        AnyValue::Object(f) => f,
        _ => {
            return Err(wrong_type(key));
        },
    };
    let listen = match get_child(v, "listen") {
        Some(c) => decode_listener(c, "listen")?,
        None => {
            return Err(missing("listen"));
        },
    };
    let foreach = match get_child(v, "foreach") {
        Some(c) => Some(decode_subscription_iterator(c, "foreach")?),
        None => None,
    };
    let common = decode_common_from(f)?;
    Ok(ListenTaskDefinition { listen, foreach, common })
}

/// Reads a RaiseTaskDefinition from its tree, found under `key`.
fn decode_raise_task(v: &AnyValue, key: &str) -> (r: Result<RaiseTaskDefinition, DecodeError>)
    ensures
        !(v is Object) ==> r is Err,
        forall|t: TaskDefinition| #[trigger] task_tree(*v, t) && t is Raise ==> (r matches Ok(y)
            && same_task(TaskDefinition::Raise(y), t)),
    decreases v, 1int,
{
    proof {
        lemma_key_texts();
        assert forall|t: TaskDefinition| #[trigger] task_tree(*v, t) && t is Raise implies value_of(fields_of(*v), "raise"@)
            is Some && raise_error_tree(value_of(fields_of(*v), "raise"@)->0, t->Raise_0.raise)
            && common_read_ok(fields_of(*v)) && common_from(fields_of(*v)) == t->Raise_0.common by {
            assert(t == TaskDefinition::Raise(t->Raise_0));
            lemma_common_round_trip(fields_of(*v), t->Raise_0.common);
        }
    }
    let f = match v {
        AnyValue::Object(f) => f,
        _ => {
            return Err(wrong_type(key));
        },
    };
    let raise = match get_child(v, "raise") {
        Some(c) => decode_raise_error(c, "raise")?,
        None => {
            return Err(missing("raise"));
        },
    };
    let common = decode_common_from(f)?;
    proof {
        assert forall|t: TaskDefinition| #[trigger] task_tree(*v, t) && t is Raise implies same_task(
            TaskDefinition::Raise(RaiseTaskDefinition { raise, common }),
            t,
        ) by {
            assert(t == TaskDefinition::Raise(t->Raise_0));
        }
    }
    Ok(RaiseTaskDefinition { raise, common })
}

/// The tree of a RunTaskDefinition.
fn encode_run_task(x: &RunTaskDefinition) -> (r: AnyValue)
    ensures
        r is Object,
        keys_within(r->Object_0@, set!["run"@].union(common_keys())),
        has_key(r->Object_0@, "run"@),
    decreases x,
{
    let mut out: Vec<(String, AnyValue)> = Vec::new();
    put(&mut out, "run", encode_process_type(&x.run));
    encode_common_into(&x.common, &mut out);
    proof {
        assert(out@[0].0@ == "run"@);
    }
    AnyValue::Object(out)
}

/// Reads a RunTaskDefinition from its tree, found under `key`.
fn decode_run_task(v: &AnyValue, key: &str) -> (r: Result<RunTaskDefinition, DecodeError>)
    ensures
        !(v is Object) ==> r is Err,
    decreases v, 1int,
{
    let f = match v {
        AnyValue::Object(f) => f,
        _ => {
            return Err(wrong_type(key));
        },
    };
    let run = match get_child(v, "run") {
        Some(c) => decode_process_type(c, "run")?,
        None => {
            return Err(missing("run"));
        },
    };
    let common = decode_common_from(f)?;
    Ok(RunTaskDefinition { run, common })
}

/// Reads a SetTaskDefinition from its tree, found under `key`.
pub fn decode_set_task(v: &AnyValue, key: &str) -> (r: Result<SetTaskDefinition, DecodeError>)
    ensures
        !(v is Object) ==> r is Err,
        r matches Ok(t) ==> value_of(fields_of(*v), "set"@) matches Some(x) && (x is String ==> t.set
            == SetValue::Expression(x->String_0)) && (x is Object ==> t.set is Entries
            && scalars_kept(AnyValue::Object(t.set->Entries_0), x)),
        forall|x: SetTaskDefinition| #[trigger] set_tree(*v, x) && simple_common(x.common) && common_tree(fields_of(*v), x.common) ==> (r matches Ok(y)
            && same_task(TaskDefinition::SetData(y), TaskDefinition::SetData(x))),
        plain_text_field(*v, "set"@) is Some ==> r == Ok::<SetTaskDefinition, DecodeError>(
            SetTaskDefinition { set: SetValue::Expression(plain_text_field(*v, "set"@)->0), common: no_fields() }),
    decreases v, 1int,
{
    proof {
        assert forall|x: SetTaskDefinition| #[trigger] set_tree(*v, x) && simple_common(x.common) && common_tree(fields_of(*v), x.common) implies common_read_ok(fields_of(*v)) && common_from(fields_of(*v)) == x.common by {
            lemma_common_round_trip(fields_of(*v), x.common);
        }
        lemma_key_texts();
        if single_field(*v, "set"@) is Some {
            lemma_single_field(*v, "set"@);
        }
    }
    let f = match v {
        AnyValue::Object(f) => f,
        _ => {
            return Err(wrong_type(key));
        },
    };
    let set = match get_child(v, "set") {
        Some(c) => decode_set_value(c, "set")?,
        None => {
            return Err(missing("set"));
        },
    };
    let common = decode_common_from(f)?;
    proof {
        assert forall|x: SetTaskDefinition| #[trigger] set_tree(*v, x) && simple_common(x.common) && common_tree(fields_of(*v), x.common) implies same_task(
            TaskDefinition::SetData(SetTaskDefinition { set, common }),
            TaskDefinition::SetData(x),
        ) by {
            if x.set is Entries {
                lemma_same_tree_trans(
                    AnyValue::Object(x.set->Entries_0),
                    value_of(f@, "set"@)->0,
                    AnyValue::Object(set->Entries_0),
                );
            }
        }
    }
    Ok(SetTaskDefinition { set, common })
}

/// Reads a SwitchTaskDefinition from its tree, found under `key`.
fn decode_switch_task(v: &AnyValue, key: &str) -> (r: Result<SwitchTaskDefinition, DecodeError>)
    ensures
        !(v is Object) ==> r is Err,
        forall|t: TaskDefinition| #[trigger] task_tree(*v, t) && t is Switch ==> (r matches Ok(y)
            && same_task(TaskDefinition::Switch(y), t)),
    decreases v, 1int,
{
    proof {
        lemma_key_texts();
        assert forall|t: TaskDefinition| #[trigger] task_tree(*v, t) && t is Switch implies value_of(fields_of(*v), "switch"@)
            is Some && value_of(fields_of(*v), "switch"@)->0 is Array && cases_tree(
            value_of(fields_of(*v), "switch"@)->0->Array_0@,
            t->Switch_0.switch@,
        ) && common_read_ok(fields_of(*v)) && common_from(fields_of(*v)) == t->Switch_0.common by {
            assert(t == TaskDefinition::Switch(t->Switch_0));
            lemma_common_round_trip(fields_of(*v), t->Switch_0.common);
        }
    }
    let f = match v {
        AnyValue::Object(f) => f,
        _ => {
            return Err(wrong_type(key));
        },
    };
    let switch = match get_child(v, "switch") {
        Some(c) => decode_switch_cases(c, "switch")?,
        None => {
            return Err(missing("switch"));
        },
    };
    let common = decode_common_from(f)?;
    proof {
        assert forall|t: TaskDefinition| #[trigger] task_tree(*v, t) && t is Switch implies same_task(
            TaskDefinition::Switch(SwitchTaskDefinition { switch, common }),
            t,
        ) by {
            assert(t == TaskDefinition::Switch(t->Switch_0));
        }
    }
    Ok(SwitchTaskDefinition { switch, common })
}

/// The tree of a TryTaskDefinition.
fn encode_try_task(x: &TryTaskDefinition) -> (r: AnyValue)
    ensures
        r is Object,
        keys_within(r->Object_0@, set!["try"@, "catch"@].union(common_keys())),
        has_key(r->Object_0@, "try"@),
    decreases x,
{
    let mut out: Vec<(String, AnyValue)> = Vec::new();
    put(&mut out, "try", encode_task_map(&x.try_));
    put(&mut out, "catch", encode_error_catcher(&x.catch));
    encode_common_into(&x.common, &mut out);
    proof {
        assert(out@[0].0@ == "try"@);
    }
    AnyValue::Object(out)
}

/// Reads a TryTaskDefinition from its tree, found under `key`.
fn decode_try_task(v: &AnyValue, key: &str) -> (r: Result<TryTaskDefinition, DecodeError>)
    ensures
        !(v is Object) ==> r is Err,
    decreases v, 1int,
{
    let f = match v {
        AnyValue::Object(f) => f,
        _ => {
            return Err(wrong_type(key));
        },
    };
    let try_ = match get_child(v, "try") {
        Some(c) => decode_task_map(c, "try")?,
        None => {
            return Err(missing("try"));
        },
    };
    let catch = match get_child(v, "catch") {
        Some(c) => decode_error_catcher(c, "catch")?,
        None => {
            return Err(missing("catch"));
        },
    };
    let common = decode_common_from(f)?;
    Ok(TryTaskDefinition { try_, catch, common })
}

/// Reads a WaitTaskDefinition from its tree, found under `key`.
pub fn decode_wait_task(v: &AnyValue, key: &str) -> (r: Result<WaitTaskDefinition, DecodeError>)
    ensures
        !(v is Object) ==> r is Err,
        r matches Ok(t) ==> value_of(fields_of(*v), "wait"@) matches Some(x)
            && duration_or_expression_from(x) == Ok::<OneOfDurationOrIso8601Expression, ()>(t.wait),
        forall|x: WaitTaskDefinition| #[trigger] wait_tree(*v, x) && simple_common(x.common) && common_tree(fields_of(*v), x.common) ==> r
            == Ok::<WaitTaskDefinition, DecodeError>(x),
        plain_wait_from(*v) is Some ==> r == Ok::<WaitTaskDefinition, DecodeError>(
            WaitTaskDefinition { wait: plain_wait_from(*v)->0, common: no_fields() }),
    decreases v, 1int,
{
    proof {
        assert forall|x: WaitTaskDefinition| #[trigger] wait_tree(*v, x) && simple_common(x.common) && common_tree(fields_of(*v), x.common) implies common_read_ok(fields_of(*v)) && common_from(fields_of(*v)) == x.common by {
            lemma_common_round_trip(fields_of(*v), x.common);
        }
        assert forall|x: WaitTaskDefinition| #[trigger] wait_tree(*v, x) implies duration_or_expression_from(value_of(fields_of(*v), "wait"@)->0) == Ok::<OneOfDurationOrIso8601Expression, ()>(x.wait) by {
            law_duration_or_expression_round_trip(value_of(fields_of(*v), "wait"@)->0, x.wait);
        }
        lemma_key_texts();
        if single_field(*v, "wait"@) is Some {
            lemma_single_field(*v, "wait"@);
        }
    }
    let f = match v {
        AnyValue::Object(f) => f,
        _ => {
            return Err(wrong_type(key));
        },
    };
    let wait = match get_child(v, "wait") {
        Some(c) => decode_duration_or_expression(c, "wait")?,
        None => {
            return Err(missing("wait"));
        },
    };
    let common = decode_common_from(f)?;
    Ok(WaitTaskDefinition { wait, common })
}

/// The tree of a ExtensionDefinition.
fn encode_extension(x: &ExtensionDefinition) -> (r: AnyValue)
    ensures
        r is Object,
    decreases x,
{
    let mut out: Vec<(String, AnyValue)> = Vec::new();
    put(&mut out, "extend", AnyValue::String(x.extend.clone()));
    put_opt_string(&mut out, "when", &x.when);
    match &x.before {
        Some(m) => put(&mut out, "before", encode_task_map(m)),
        None => {},
    }
    match &x.after {
        Some(m) => put(&mut out, "after", encode_task_map(m)),
        None => {},
    }
    AnyValue::Object(out)
}

/// Reads a ExtensionDefinition from its tree, found under `key`.
fn decode_extension(v: &AnyValue, key: &str) -> (r: Result<ExtensionDefinition, DecodeError>)
    ensures
        !(v is Object) ==> r is Err,
    decreases v, 1int,
{
    let f = match v {
        AnyValue::Object(f) => f,
        _ => {
            return Err(wrong_type(key));
        },
    };
    let extend = read_string(f, "extend")?;
    let when = read_opt_string(f, "when")?;
    let before = match get_child(v, "before") {
        Some(c) => Some(decode_task_map(c, "before")?),
        None => None,
    };
    let after = match get_child(v, "after") {
        Some(c) => Some(decode_task_map(c, "after")?),
        None => None,
    };
    Ok(ExtensionDefinition { extend, when, before, after })
}

/// The tree of a CatalogDefinition.
fn encode_catalog(x: &CatalogDefinition) -> (r: AnyValue)
    ensures
        r is Object,
{
    let mut out: Vec<(String, AnyValue)> = Vec::new();
    put(&mut out, "endpoint", encode_endpoint_or_uri(&x.endpoint));
    AnyValue::Object(out)
}

/// Reads a CatalogDefinition from its tree, found under `key`.
fn decode_catalog(v: &AnyValue, key: &str) -> (r: Result<CatalogDefinition, DecodeError>)
    ensures
        !(v is Object) ==> r is Err,
{
    let f = match v {
        AnyValue::Object(f) => f,
        _ => {
            return Err(wrong_type(key));
        },
    };
    let endpoint = match get_child(v, "endpoint") {
        Some(c) => decode_endpoint_or_uri(c, "endpoint")?,
        None => {
            return Err(missing("endpoint"));
        },
    };
    Ok(CatalogDefinition { endpoint })
}

/// Reads a WorkflowDefinitionMetadata from its tree, found under `key`.
fn decode_document(v: &AnyValue, key: &str) -> (r: Result<WorkflowDefinitionMetadata, DecodeError>)
    ensures
        !(v is Object) ==> r is Err,
        document_from(fields_of(*v)) is Some ==> r == Ok::<WorkflowDefinitionMetadata, DecodeError>(
            document_from(fields_of(*v))->0),
        r matches Ok(d) ==> (opt_string_field(fields_of(*v), "namespace"@) == Ok::<Option<String>, ()>(None)
            ==> d.namespace@ == DEFAULT_NAMESPACE@),
        r matches Ok(d) ==> (opt_string_field(fields_of(*v), "dsl"@) == Ok::<Option<String>, ()>(None)
            ==> d.dsl@ == LATEST_DSL_VERSION@),
{
    let f = match v {
        AnyValue::Object(f) => f,
        _ => {
            return Err(wrong_type(key));
        },
    };
    let dsl = match read_opt_string(f, "dsl")? {
        Some(s) => s,
        None => default_dsl_version(),
    };
    let namespace = match read_opt_string(f, "namespace")? {
        Some(s) => s,
        None => default_namespace(),
    };
    let name = read_string(f, "name")?;
    let version = read_string(f, "version")?;
    let title = read_opt_string(f, "title")?;
    let summary = read_opt_string(f, "summary")?;
    let tags = read_opt_string_pairs(f, "tags")?;
    Ok(WorkflowDefinitionMetadata { dsl, namespace, name, version, title, summary, tags })
}

/// The tree of a WorkflowScheduleDefinition.
fn encode_schedule(x: &WorkflowScheduleDefinition) -> (r: AnyValue)
    ensures
        r is Object,
{
    let mut out: Vec<(String, AnyValue)> = Vec::new();
    match &x.every {
        Some(d) => put(&mut out, "every", encode_duration(d)),
        None => {},
    }
    put_opt_string(&mut out, "cron", &x.cron);
    match &x.after {
        Some(d) => put(&mut out, "after", encode_duration(d)),
        None => {},
    }
    match &x.on {
        Some(s) => put(&mut out, "on", encode_consumption_strategy(s)),
        None => {},
    }
    AnyValue::Object(out)
}

/// Reads a WorkflowScheduleDefinition from its tree, found under `key`.
fn decode_schedule(v: &AnyValue, key: &str) -> (r: Result<WorkflowScheduleDefinition, DecodeError>)
    ensures
        !(v is Object) ==> r is Err,
{
    let f = match v {
        AnyValue::Object(f) => f,
        _ => {
            return Err(wrong_type(key));
        },
    };
    let every = match get_child(v, "every") {
        Some(c) => Some(decode_duration_value(c, "every")?),
        None => None,
    };
    let cron = read_opt_string(f, "cron")?;
    let after = match get_child(v, "after") {
        Some(c) => Some(decode_duration_value(c, "after")?),
        None => None,
    };
    let on = match get_child(v, "on") {
        Some(c) => Some(decode_consumption_strategy(c, "on")?),
        None => None,
    };
    Ok(WorkflowScheduleDefinition { every, cron, after, on })
}

/// The tree of a RuntimeExpressionEvaluationConfiguration.
fn encode_evaluate(x: &RuntimeExpressionEvaluationConfiguration) -> (r: AnyValue)
    ensures
        r is Object,
{
    let mut out: Vec<(String, AnyValue)> = Vec::new();
    put(&mut out, "language", AnyValue::String(x.language.clone()));
    put_opt_string(&mut out, "mode", &x.mode);
    AnyValue::Object(out)
}

/// Reads a RuntimeExpressionEvaluationConfiguration from its tree, found under `key`.
fn decode_evaluate(v: &AnyValue, key: &str) -> (r: Result<RuntimeExpressionEvaluationConfiguration, DecodeError>)
    ensures
        !(v is Object) ==> r is Err,
{
    let f = match v {
        AnyValue::Object(f) => f,
        _ => {
            return Err(wrong_type(key));
        },
    };
    let language = match read_opt_string(f, "language")? {
        Some(s) => s,
        None => default_runtime_expression_language(),
    };
    let mode = read_opt_string(f, "mode")?;
    Ok(RuntimeExpressionEvaluationConfiguration { language, mode })
}

/// The tree of a ComponentDefinitionCollection.
fn encode_components(x: &ComponentDefinitionCollection) -> (r: AnyValue)
    ensures
        r is Object,
    decreases x,
{
    let mut out: Vec<(String, AnyValue)> = Vec::new();
    match &x.authentications {
        Some(m) => put(&mut out, "authentications", encode_authentication_policy_pairs(m)),
        None => {},
    }
    match &x.catalogs {
        Some(m) => put(&mut out, "catalogs", encode_catalog_pairs(m)),
        None => {},
    }
    match &x.errors {
        Some(m) => put(&mut out, "errors", encode_error_pairs(m)),
        None => {},
    }
    match &x.extensions {
        Some(m) => put(&mut out, "extensions", encode_extension_pairs(m)),
        None => {},
    }
    match &x.functions {
        Some(m) => put(&mut out, "functions", encode_task_pairs(m)),
        None => {},
    }
    match &x.retries {
        Some(m) => put(&mut out, "retries", encode_retry_policy_pairs(m)),
        None => {},
    }
    match &x.secrets {
        Some(l) => put(&mut out, "secrets", string_list_value(l)),
        None => {},
    }
    match &x.timeouts {
        Some(m) => put(&mut out, "timeouts", encode_timeout_pairs(m)),
        None => {},
    }
    AnyValue::Object(out)
}

/// Reads a ComponentDefinitionCollection from its tree, found under `key`.
fn decode_components(v: &AnyValue, key: &str) -> (r: Result<ComponentDefinitionCollection, DecodeError>)
    ensures
        !(v is Object) ==> r is Err,
    decreases v, 1int,
{
    let f = match v {
        AnyValue::Object(f) => f,
        _ => {
            return Err(wrong_type(key));
        },
    };
    let authentications = match get_child(v, "authentications") {
        Some(c) => Some(decode_authentication_policy_pairs(c, "authentications")?),
        None => None,
    };
    let catalogs = match get_child(v, "catalogs") {
        Some(c) => Some(decode_catalog_pairs(c, "catalogs")?),
        None => None,
    };
    let errors = match get_child(v, "errors") {
        Some(c) => Some(decode_error_pairs(c, "errors")?),
        None => None,
    };
    let extensions = match get_child(v, "extensions") {
        Some(c) => Some(decode_extension_pairs(c, "extensions")?),
        None => None,
    };
    let functions = match get_child(v, "functions") {
        Some(c) => Some(decode_task_pairs(c, "functions")?),
        None => None,
    };
    let retries = match get_child(v, "retries") {
        Some(c) => Some(decode_retry_policy_pairs(c, "retries")?),
        None => None,
    };
    let secrets = read_opt_string_list(f, "secrets")?;
    let timeouts = match get_child(v, "timeouts") {
        Some(c) => Some(decode_timeout_pairs(c, "timeouts")?),
        None => None,
    };
    Ok(ComponentDefinitionCollection { authentications, catalogs, errors, extensions, functions, retries, secrets, timeouts })
}

/// Reads a WorkflowDefinition from its tree, found under `key`.
fn decode_workflow(v: &AnyValue, key: &str) -> (r: Result<WorkflowDefinition, DecodeError>)
    ensures
        !(v is Object) ==> r is Err,
        r matches Ok(w) ==> workflow_read(*v, w),
        r matches Ok(w) ==> value_of(fields_of(*v), "do"@) matches Some(d) && d is Array
            && singleton_names(d->Array_0@) == entry_names(w.do_@),
        r matches Ok(w) ==> match value_of(fields_of(*v), "timeout"@) {
            Some(x) => w.timeout is Some && timeout_or_reference_from(x)
                == Ok::<OneOfTimeoutDefinitionOrReference, ()>(w.timeout->0),
            None => w.timeout is None,
        },
        r matches Ok(w) ==> workflow_read(*v, w),
        forall|m: Seq<(String, TaskDefinition)>| #[trigger] map_tree(workflow_tasks(*v), m) ==> (workflow_base_ok(*v)
            ==> (r matches Ok(w) && same_map(w.do_@, m) && w.document == document_from(
            fields_of(value_of(fields_of(*v), "document"@)->0),
        )->0 && w.input is None && w.use_ is None && w.output is None && w.schedule is None
            && w.evaluate is None && w.metadata is None)),
        workflow_ok(*v) ==> r is Ok && r->Ok_0.document == document_from(
            fields_of(value_of(fields_of(*v), "document"@)->0),
        )->0 && r->Ok_0.input is None && r->Ok_0.use_ is None && r->Ok_0.output is None
            && r->Ok_0.schedule is None && r->Ok_0.evaluate is None && r->Ok_0.metadata is None,
    decreases v, 1int,
{
    let f = match v {
        AnyValue::Object(f) => f,
        _ => {
            return Err(wrong_type(key));
        },
    };
    let document = match get_child(v, "document") {
        Some(c) => decode_document(c, "document")?,
        None => {
            return Err(missing("document"));
        },
    };
    let input = match get_child(v, "input") {
        Some(c) => Some(decode_input_data_model(c, "input")?),
        None => None,
    };
    let use_ = match get_child(v, "use") {
        Some(c) => Some(decode_components(c, "use")?),
        None => None,
    };
    let timeout = match get_child(v, "timeout") {
        Some(c) => Some(decode_timeout_or_reference(c, "timeout")?),
        None => None,
    };
    let output = match get_child(v, "output") {
        Some(c) => Some(decode_output_data_model(c, "output")?),
        None => None,
    };
    let schedule = match get_child(v, "schedule") {
        Some(c) => Some(decode_schedule(c, "schedule")?),
        None => None,
    };
    let evaluate = match get_child(v, "evaluate") {
        Some(c) => Some(decode_evaluate(c, "evaluate")?),
        None => None,
    };
    let do_ = match get_child(v, "do") {
        Some(c) => decode_task_map(c, "do")?,
        None => {
            return Err(missing("do"));
        },
    };
    let metadata = read_opt_value_pairs(f, "metadata")?;
    Ok(WorkflowDefinition { document, input, use_, timeout, output, schedule, evaluate, do_, metadata })
}

/// The tree of named CorrelationKeyDefinitions: an object from each name to its tree.
fn encode_correlation_key_pairs(m: &Vec<(String, CorrelationKeyDefinition)>) -> (r: AnyValue)
{
    let mut out: Vec<(String, AnyValue)> = Vec::new();
    let mut i: usize = 0;
    while i < m.len()
        decreases m.len() - i,
    {
        let e = encode_correlation_key(&m[i].1);
        out.push((m[i].0.clone(), e));
        i = i + 1;
    }
    AnyValue::Object(out)
}

/// Reads named CorrelationKeyDefinitions from an object.
fn decode_correlation_key_pairs(v: &AnyValue, key: &str) -> (r: Result<Vec<(String, CorrelationKeyDefinition)>, DecodeError>)
{
    match v {
        AnyValue::Object(items) => {
            let mut out: Vec<(String, CorrelationKeyDefinition)> = Vec::new();
            let mut i: usize = 0;
            while i < items.len()
                decreases items.len() - i,
            {
                let x = decode_correlation_key(&items[i].1, key)?;
                out.push((items[i].0.clone(), x));
                i = i + 1;
            }
            Ok(out)
        },
        _ => Err(wrong_type(key)),
    }
}

/// The tree of named AuthenticationPolicyDefinitions: an object from each name to its tree.
fn encode_authentication_policy_pairs(m: &Vec<(String, AuthenticationPolicyDefinition)>) -> (r: AnyValue)
{
    let mut out: Vec<(String, AnyValue)> = Vec::new();
    let mut i: usize = 0;
    while i < m.len()
        decreases m.len() - i,
    {
        let e = encode_authentication_policy(&m[i].1);
        out.push((m[i].0.clone(), e));
        i = i + 1;
    }
    AnyValue::Object(out)
}

/// Reads named AuthenticationPolicyDefinitions from an object.
fn decode_authentication_policy_pairs(v: &AnyValue, key: &str) -> (r: Result<Vec<(String, AuthenticationPolicyDefinition)>, DecodeError>)
{
    match v {
        AnyValue::Object(items) => {
            let mut out: Vec<(String, AuthenticationPolicyDefinition)> = Vec::new();
            let mut i: usize = 0;
            while i < items.len()
                decreases items.len() - i,
            {
                let x = decode_authentication_policy(&items[i].1, key)?;
                out.push((items[i].0.clone(), x));
                i = i + 1;
            }
            Ok(out)
        },
        _ => Err(wrong_type(key)),
    }
}

/// The tree of named CatalogDefinitions: an object from each name to its tree.
fn encode_catalog_pairs(m: &Vec<(String, CatalogDefinition)>) -> (r: AnyValue)
{
    let mut out: Vec<(String, AnyValue)> = Vec::new();
    let mut i: usize = 0;
    while i < m.len()
        decreases m.len() - i,
    {
        let e = encode_catalog(&m[i].1);
        out.push((m[i].0.clone(), e));
        i = i + 1;
    }
    AnyValue::Object(out)
}

/// Reads named CatalogDefinitions from an object.
fn decode_catalog_pairs(v: &AnyValue, key: &str) -> (r: Result<Vec<(String, CatalogDefinition)>, DecodeError>)
{
    match v {
        AnyValue::Object(items) => {
            let mut out: Vec<(String, CatalogDefinition)> = Vec::new();
            let mut i: usize = 0;
            while i < items.len()
                decreases items.len() - i,
            {
                let x = decode_catalog(&items[i].1, key)?;
                out.push((items[i].0.clone(), x));
                i = i + 1;
            }
            Ok(out)
        },
        _ => Err(wrong_type(key)),
    }
}

/// The tree of named ErrorDefinitions: an object from each name to its tree.
fn encode_error_pairs(m: &Vec<(String, ErrorDefinition)>) -> (r: AnyValue)
{
    let mut out: Vec<(String, AnyValue)> = Vec::new();
    let mut i: usize = 0;
    while i < m.len()
        decreases m.len() - i,
    {
        let e = encode_error(&m[i].1);
        out.push((m[i].0.clone(), e));
        i = i + 1;
    }
    AnyValue::Object(out)
}

/// Reads named ErrorDefinitions from an object.
fn decode_error_pairs(v: &AnyValue, key: &str) -> (r: Result<Vec<(String, ErrorDefinition)>, DecodeError>)
{
    match v {
        AnyValue::Object(items) => {
            let mut out: Vec<(String, ErrorDefinition)> = Vec::new();
            let mut i: usize = 0;
            while i < items.len()
                decreases items.len() - i,
            {
                let x = decode_error(&items[i].1, key)?;
                out.push((items[i].0.clone(), x));
                i = i + 1;
            }
            Ok(out)
        },
        _ => Err(wrong_type(key)),
    }
}

/// The tree of named RetryPolicyDefinitions: an object from each name to its tree.
fn encode_retry_policy_pairs(m: &Vec<(String, RetryPolicyDefinition)>) -> (r: AnyValue)
{
    let mut out: Vec<(String, AnyValue)> = Vec::new();
    let mut i: usize = 0;
    while i < m.len()
        decreases m.len() - i,
    {
        let e = encode_retry_policy(&m[i].1);
        out.push((m[i].0.clone(), e));
        i = i + 1;
    }
    AnyValue::Object(out)
}

/// Reads named RetryPolicyDefinitions from an object.
fn decode_retry_policy_pairs(v: &AnyValue, key: &str) -> (r: Result<Vec<(String, RetryPolicyDefinition)>, DecodeError>)
{
    match v {
        AnyValue::Object(items) => {
            let mut out: Vec<(String, RetryPolicyDefinition)> = Vec::new();
            let mut i: usize = 0;
            while i < items.len()
                decreases items.len() - i,
            {
                let x = decode_retry_policy(&items[i].1, key)?;
                out.push((items[i].0.clone(), x));
                i = i + 1;
            }
            Ok(out)
        },
        _ => Err(wrong_type(key)),
    }
}

/// The tree of named TimeoutDefinitions: an object from each name to its tree.
fn encode_timeout_pairs(m: &Vec<(String, TimeoutDefinition)>) -> (r: AnyValue)
{
    let mut out: Vec<(String, AnyValue)> = Vec::new();
    let mut i: usize = 0;
    while i < m.len()
        decreases m.len() - i,
    {
        let e = encode_timeout(&m[i].1);
        out.push((m[i].0.clone(), e));
        i = i + 1;
    }
    AnyValue::Object(out)
}

/// Reads named TimeoutDefinitions from an object.
fn decode_timeout_pairs(v: &AnyValue, key: &str) -> (r: Result<Vec<(String, TimeoutDefinition)>, DecodeError>)
{
    match v {
        AnyValue::Object(items) => {
            let mut out: Vec<(String, TimeoutDefinition)> = Vec::new();
            let mut i: usize = 0;
            while i < items.len()
                decreases items.len() - i,
            {
                let x = decode_timeout(&items[i].1, key)?;
                out.push((items[i].0.clone(), x));
                i = i + 1;
            }
            Ok(out)
        },
        _ => Err(wrong_type(key)),
    }
}

/// The tree of named ExtensionDefinitions: an object from each name to its tree.
fn encode_extension_pairs(m: &Vec<(String, ExtensionDefinition)>) -> (r: AnyValue)
    decreases m,
{
    let mut out: Vec<(String, AnyValue)> = Vec::new();
    let mut i: usize = 0;
    while i < m.len()
        decreases m.len() - i,
    {
            proof {
                assert(decreases_to!(*m => m@));
                assert(decreases_to!(m@ => m@[i as int]));
                assert(decreases_to!(m@[i as int] => m@[i as int].1));
            }
        let e = encode_extension(&m[i].1);
        out.push((m[i].0.clone(), e));
        i = i + 1;
    }
    AnyValue::Object(out)
}

/// Reads named ExtensionDefinitions from an object.
fn decode_extension_pairs(v: &AnyValue, key: &str) -> (r: Result<Vec<(String, ExtensionDefinition)>, DecodeError>)
    decreases v, 2int,
{
    match v {
        AnyValue::Object(items) => {
            let mut out: Vec<(String, ExtensionDefinition)> = Vec::new();
            let mut i: usize = 0;
            while i < items.len()
                invariant
                    *v == AnyValue::Object(*items),
                decreases items.len() - i,
            {
                proof {
                    assert(decreases_to!(*v => v->Object_0));
                    assert(decreases_to!(v->Object_0 => v->Object_0@));
                    assert(decreases_to!(v->Object_0@ => v->Object_0@[i as int]));
                    assert(decreases_to!(v->Object_0@[i as int] => v->Object_0@[i as int].1));
                }
                let x = decode_extension(&items[i].1, key)?;
                out.push((items[i].0.clone(), x));
                i = i + 1;
            }
            Ok(out)
        },
        _ => Err(wrong_type(key)),
    }
}

/// `v` is the tree of a call, as far as its own fields go: `call` holds the function's name, `with`
/// the arguments (when there are any), `await` the flag (when it is set), and otherwise only common fields.
pub open spec fn call_tree(v: AnyValue, x: CallTaskDefinition) -> bool {
    &&& v is Object
    &&& keys_within(fields_of(v), set!["call"@, "with"@, "await"@].union(simple_common_keys()))
    &&& value_of(fields_of(v), "call"@) == Some(AnyValue::String(x.call))
    &&& match x.with {
        Some(w) => value_of(fields_of(v), "with"@) is Some && same_tree(
            AnyValue::Object(w),
            value_of(fields_of(v), "with"@)->0,
        ),
        None => value_of(fields_of(v), "with"@) is None,
    }
    &&& opt_bool_field(fields_of(v), "await"@) == Ok::<Option<bool>, ()>(x.await_)
}

/// `v` is the tree of a 'set' task, as far as its own fields go: `set` holds the named values as an
/// object, or the expression as a string, and otherwise only common fields.
pub open spec fn set_tree(v: AnyValue, x: SetTaskDefinition) -> bool {
    &&& v is Object
    &&& keys_within(fields_of(v), set!["set"@].union(simple_common_keys()))
    &&& match x.set {
        SetValue::Entries(m) => value_of(fields_of(v), "set"@) is Some && same_tree(
            AnyValue::Object(m),
            value_of(fields_of(v), "set"@)->0,
        ),
        SetValue::Expression(e) => value_of(fields_of(v), "set"@) == Some(AnyValue::String(e)),
    }
}

/// `v` is the tree of a wait task, as far as its own fields go: `wait` holds the length of time.
pub open spec fn wait_tree(v: AnyValue, x: WaitTaskDefinition) -> bool {
    &&& v is Object
    &&& keys_within(fields_of(v), set!["wait"@].union(simple_common_keys()))
    &&& value_of(fields_of(v), "wait"@) is Some
    &&& duration_or_expression_tree(value_of(fields_of(v), "wait"@)->0, x.wait)
}

/// `v` is the tree of a loop without input: `each`, `in` and, when set, `at`.
pub open spec fn loop_tree(v: AnyValue, y: ForLoopDefinition) -> bool {
    &&& v is Object
    &&& keys_within(fields_of(v), set!["each"@, "in"@, "at"@])
    &&& value_of(fields_of(v), "each"@) == Some(AnyValue::String(y.each))
    &&& value_of(fields_of(v), "in"@) == Some(AnyValue::String(y.in_))
    &&& opt_string_field(fields_of(v), "at"@) == Ok::<Option<String>, ()>(y.at)
    &&& y.input is None
}

/// `v` is the tree of the task `t`, for the tasks whose trees this is stated of: calls, 'set'
/// tasks, waits, and 'do' and 'for' tasks over such tasks, with common fields limited to a
/// condition, a timeout and what to do next (see `common_tree`).
pub open spec fn task_tree(v: AnyValue, t: TaskDefinition) -> bool
    decreases t,
{
    match t {
        TaskDefinition::Call(x) => simple_common(x.common) && call_tree(v, x) && common_tree(fields_of(v), x.common),
        TaskDefinition::SetData(x) => simple_common(x.common) && set_tree(v, x) && common_tree(fields_of(v), x.common),
        TaskDefinition::Wait(x) => simple_common(x.common) && wait_tree(v, x) && common_tree(fields_of(v), x.common),
        TaskDefinition::Do(x) => {
            &&& simple_common(x.common)
            &&& common_tree(fields_of(v), x.common)
            &&& v is Object
            &&& keys_within(fields_of(v), set!["do"@].union(simple_common_keys()))
            &&& value_of(fields_of(v), "do"@) is Some
            &&& value_of(fields_of(v), "do"@)->0 is Array
            &&& map_tree(value_of(fields_of(v), "do"@)->0->Array_0@, x.do_@)
        },
        TaskDefinition::Emit(x) => {
            &&& simple_common(x.common)
            &&& common_tree(fields_of(v), x.common)
            &&& v is Object
            &&& keys_within(fields_of(v), set!["emit"@].union(simple_common_keys()))
            &&& value_of(fields_of(v), "emit"@) is Some
            &&& emission_tree(value_of(fields_of(v), "emit"@)->0, x.emit)
        },
        TaskDefinition::Raise(x) => {
            &&& simple_common(x.common)
            &&& common_tree(fields_of(v), x.common)
            &&& v is Object
            &&& keys_within(fields_of(v), set!["raise"@].union(simple_common_keys()))
            &&& value_of(fields_of(v), "raise"@) is Some
            &&& raise_error_tree(value_of(fields_of(v), "raise"@)->0, x.raise)
        },
        TaskDefinition::Switch(x) => {
            &&& simple_common(x.common)
            &&& common_tree(fields_of(v), x.common)
            &&& v is Object
            &&& keys_within(fields_of(v), set!["switch"@].union(simple_common_keys()))
            &&& value_of(fields_of(v), "switch"@) is Some
            &&& value_of(fields_of(v), "switch"@)->0 is Array
            &&& cases_tree(value_of(fields_of(v), "switch"@)->0->Array_0@, x.switch@)
        },
        TaskDefinition::Fork(x) => {
            &&& simple_common(x.common)
            &&& common_tree(fields_of(v), x.common)
            &&& v is Object
            &&& keys_within(fields_of(v), set!["fork"@].union(simple_common_keys()))
            &&& value_of(fields_of(v), "fork"@) is Some
            &&& value_of(fields_of(v), "fork"@)->0 is Object
            &&& keys_within(fields_of(value_of(fields_of(v), "fork"@)->0), set!["branches"@, "compete"@])
            &&& value_of(fields_of(value_of(fields_of(v), "fork"@)->0), "compete"@) == Some(AnyValue::Bool(x.fork.compete))
            &&& value_of(fields_of(value_of(fields_of(v), "fork"@)->0), "branches"@) is Some
            &&& value_of(fields_of(value_of(fields_of(v), "fork"@)->0), "branches"@)->0 is Array
            &&& map_tree(value_of(fields_of(value_of(fields_of(v), "fork"@)->0), "branches"@)->0->Array_0@, x.fork.branches@)
        },
        TaskDefinition::For(x) => {
            &&& simple_common(x.common)
            &&& common_tree(fields_of(v), x.common)
            &&& v is Object
            &&& keys_within(fields_of(v), set!["for"@, "while"@, "do"@].union(simple_common_keys()))
            &&& value_of(fields_of(v), "for"@) is Some
            &&& loop_tree(value_of(fields_of(v), "for"@)->0, x.for_)
            &&& opt_string_field(fields_of(v), "while"@) == Ok::<Option<String>, ()>(x.while_)
            &&& value_of(fields_of(v), "do"@) is Some
            &&& value_of(fields_of(v), "do"@)->0 is Array
            &&& map_tree(value_of(fields_of(v), "do"@)->0->Array_0@, x.do_@)
        },
        _ => false,
    }
}

/// `v` is the tree of an error: `type`, `title` and `status`, and `detail` and `instance` when
/// set.
pub open spec fn error_tree(v: AnyValue, e: ErrorDefinition) -> bool {
    &&& v is Object
    &&& keys_within(fields_of(v), set!["type"@, "title"@, "status"@, "detail"@, "instance"@])
    &&& value_of(fields_of(v), "type"@) == Some(AnyValue::String(e.type_))
    &&& value_of(fields_of(v), "title"@) == Some(AnyValue::String(e.title))
    &&& value_of(fields_of(v), "status"@) is Some
    &&& same_tree(e.status, value_of(fields_of(v), "status"@)->0)
    &&& opt_string_field(fields_of(v), "detail"@) == Ok::<Option<String>, ()>(e.detail)
    &&& opt_string_field(fields_of(v), "instance"@) == Ok::<Option<String>, ()>(e.instance)
}

/// `v` is the tree of an error given inline (its object) or by name (a string).
pub open spec fn error_or_reference_tree(v: AnyValue, x: OneOfErrorDefinitionOrReference) -> bool {
    match x {
        OneOfErrorDefinitionOrReference::Error(e) => error_tree(v, e),
        OneOfErrorDefinitionOrReference::Reference(s) => v == AnyValue::String(s),
    }
}

/// `v` is the tree of what a 'raise' task raises: one field `error`.
pub open spec fn raise_error_tree(v: AnyValue, x: RaiseErrorDefinition) -> bool {
    &&& v is Object
    &&& keys_within(fields_of(v), set!["error"@])
    &&& value_of(fields_of(v), "error"@) is Some
    &&& error_or_reference_tree(value_of(fields_of(v), "error"@)->0, x.error)
}

/// `a` is the same error as `b`: the same reference, or the same fields with the status
/// compared as a tree.
pub open spec fn same_error(a: OneOfErrorDefinitionOrReference, b: OneOfErrorDefinitionOrReference) -> bool {
    match (a, b) {
        (OneOfErrorDefinitionOrReference::Error(p), OneOfErrorDefinitionOrReference::Error(q)) => p.type_ == q.type_
            && p.title == q.title && p.detail == q.detail && p.instance == q.instance && same_tree(q.status, p.status),
        (OneOfErrorDefinitionOrReference::Reference(p), OneOfErrorDefinitionOrReference::Reference(q)) => p == q,
        _ => false,
    }
}

/// `v` is the tree of a switch case: `when` and `then` as strings when set.
pub open spec fn case_tree(v: AnyValue, c: SwitchCaseDefinition) -> bool {
    &&& v is Object
    &&& keys_within(fields_of(v), set!["when"@, "then"@])
    &&& opt_string_field(fields_of(v), "when"@) == Ok::<Option<String>, ()>(c.when)
    &&& opt_string_field(fields_of(v), "then"@) == Ok::<Option<String>, ()>(c.then_)
}

/// `items` is the array of a switch's cases `m`: one single-field object per case, in order,
/// named as the case and holding its tree.
pub open spec fn cases_tree(items: Seq<AnyValue>, m: Seq<(String, SwitchCaseDefinition)>) -> bool
    decreases m,
{
    if m.len() == 0 {
        items.len() == 0
    } else {
        &&& items.len() == m.len()
        &&& cases_tree(items.drop_last(), m.drop_last())
        &&& items.last() is Object
        &&& items.last()->Object_0@.len() == 1
        &&& items.last()->Object_0@[0].0@ == m.last().0@
        &&& case_tree(items.last()->Object_0@[0].1, m.last().1)
    }
}

/// Two lists of cases with the same names, in order, and the same cases.
pub open spec fn same_cases(a: Seq<(String, SwitchCaseDefinition)>, b: Seq<(String, SwitchCaseDefinition)>) -> bool
    decreases a,
{
    if a.len() == 0 {
        b.len() == 0
    } else {
        b.len() == a.len() && same_cases(a.drop_last(), b.drop_last()) && a.last().0@ == b.last().0@
            && a.last().1 == b.last().1
    }
}

/// An entry of a case list's array is the tree of the case of the same position.
pub proof fn lemma_cases_tree_at(items: Seq<AnyValue>, m: Seq<(String, SwitchCaseDefinition)>, i: int)
    requires
        cases_tree(items, m),
        0 <= i < m.len(),
    ensures
        items.len() == m.len(),
        items[i] is Object,
        items[i]->Object_0@.len() == 1,
        items[i]->Object_0@[0].0@ == m[i].0@,
        case_tree(items[i]->Object_0@[0].1, m[i].1),
    decreases m.len(),
{
    if i < m.len() - 1 {
        lemma_cases_tree_at(items.drop_last(), m.drop_last(), i);
        assert(items.drop_last()[i] == items[i]);
        assert(m.drop_last()[i] == m[i]);
    }
}

/// `v` is the tree of an event: one field `with` holding its attributes.
pub open spec fn event_tree(v: AnyValue, x: EventDefinition) -> bool {
    &&& v is Object
    &&& keys_within(fields_of(v), set!["with"@])
    &&& value_of(fields_of(v), "with"@) is Some
    &&& same_tree(AnyValue::Object(x.with), value_of(fields_of(v), "with"@)->0)
}

/// `v` is the tree of an event's emission: one field `event` holding the event's tree.
pub open spec fn emission_tree(v: AnyValue, x: EventEmissionDefinition) -> bool {
    &&& v is Object
    &&& keys_within(fields_of(v), set!["event"@])
    &&& value_of(fields_of(v), "event"@) is Some
    &&& event_tree(value_of(fields_of(v), "event"@)->0, x.event)
}

/// `b` is the tree of a fork's branches: `branches` holds the task list, `compete` the flag.
pub open spec fn branching_tree(b: AnyValue, x: BranchingDefinition) -> bool {
    &&& b is Object
    &&& keys_within(fields_of(b), set!["branches"@, "compete"@])
    &&& value_of(fields_of(b), "compete"@) == Some(AnyValue::Bool(x.compete))
    &&& value_of(fields_of(b), "branches"@) is Some
    &&& value_of(fields_of(b), "branches"@)->0 is Array
    &&& map_tree(value_of(fields_of(b), "branches"@)->0->Array_0@, x.branches@)
}

/// `items` is the array of a task list `m`: one single-field object per entry, in order, named
/// as the entry and holding the tree of its task.
pub open spec fn map_tree(items: Seq<AnyValue>, m: Seq<(String, TaskDefinition)>) -> bool
    decreases m,
{
    if m.len() == 0 {
        items.len() == 0
    } else {
        &&& items.len() == m.len()
        &&& map_tree(items.drop_last(), m.drop_last())
        &&& items.last() is Object
        &&& items.last()->Object_0@.len() == 1
        &&& items.last()->Object_0@[0].0@ == m.last().0@
        &&& task_tree(items.last()->Object_0@[0].1, m.last().1)
    }
}

/// A task whose tree is stated: see `task_tree`.
pub open spec fn simple_task(t: TaskDefinition) -> bool
    decreases t,
{
    match t {
        TaskDefinition::Call(x) => simple_common(x.common),
        TaskDefinition::SetData(x) => simple_common(x.common),
        TaskDefinition::Wait(x) => simple_common(x.common),
        TaskDefinition::Do(x) => simple_common(x.common) && simple_map(x.do_@),
        TaskDefinition::Fork(x) => simple_common(x.common) && simple_map(x.fork.branches@),
        TaskDefinition::Emit(x) => simple_common(x.common),
        TaskDefinition::Switch(x) => simple_common(x.common),
        TaskDefinition::Raise(x) => simple_common(x.common),
        TaskDefinition::For(x) => simple_common(x.common) && x.for_.input is None && simple_map(x.do_@),
        _ => false,
    }
}

/// Every task of the list is simple.
pub open spec fn simple_map(m: Seq<(String, TaskDefinition)>) -> bool
    decreases m,
{
    m.len() == 0 || (simple_map(m.drop_last()) && simple_task(m.last().1))
}

/// `a` holds the same named values as `b`, as trees.
pub open spec fn same_values(a: Option<Vec<(String, AnyValue)>>, b: Option<Vec<(String, AnyValue)>>) -> bool {
    match (a, b) {
        (Some(p), Some(q)) => same_tree(AnyValue::Object(q), AnyValue::Object(p)),
        (None, None) => true,
        _ => false,
    }
}

/// `a` is the same task as `b`: the same kind and fields, with named values compared as trees
/// and task lists entry by entry.
pub open spec fn same_task(a: TaskDefinition, b: TaskDefinition) -> bool
    decreases a,
{
    match (a, b) {
        (TaskDefinition::Call(x), TaskDefinition::Call(y)) => x.call == y.call && x.await_ == y.await_
            && x.common == y.common && same_values(x.with, y.with),
        (TaskDefinition::SetData(x), TaskDefinition::SetData(y)) => x.common == y.common && match (x.set, y.set) {
            (SetValue::Entries(p), SetValue::Entries(q)) => same_tree(AnyValue::Object(q), AnyValue::Object(p)),
            (SetValue::Expression(p), SetValue::Expression(q)) => p == q,
            _ => false,
        },
        (TaskDefinition::Wait(x), TaskDefinition::Wait(y)) => x == y,
        (TaskDefinition::Do(x), TaskDefinition::Do(y)) => x.common == y.common && same_map(x.do_@, y.do_@),
        (TaskDefinition::Raise(x), TaskDefinition::Raise(y)) => x.common == y.common && same_error(
            x.raise.error,
            y.raise.error,
        ),
        (TaskDefinition::Switch(x), TaskDefinition::Switch(y)) => x.common == y.common && same_cases(
            x.switch@,
            y.switch@,
        ),
        (TaskDefinition::Emit(x), TaskDefinition::Emit(y)) => x.common == y.common && same_tree(
            AnyValue::Object(y.emit.event.with),
            AnyValue::Object(x.emit.event.with),
        ),
        (TaskDefinition::Fork(x), TaskDefinition::Fork(y)) => x.common == y.common && x.fork.compete == y.fork.compete
            && same_map(x.fork.branches@, y.fork.branches@),
        (TaskDefinition::For(x), TaskDefinition::For(y)) => x.common == y.common && x.for_ == y.for_
            && x.while_ == y.while_ && same_map(x.do_@, y.do_@),
        _ => false,
    }
}

/// Two task lists with the same names, in order, and the same tasks.
pub open spec fn same_map(a: Seq<(String, TaskDefinition)>, b: Seq<(String, TaskDefinition)>) -> bool
    decreases a,
{
    if a.len() == 0 {
        b.len() == 0
    } else {
        b.len() == a.len() && same_map(a.drop_last(), b.drop_last()) && a.last().0@ == b.last().0@
            && same_task(a.last().1, b.last().1)
    }
}

/// An entry of a task list's array is the tree of the entry of the same position.
pub proof fn lemma_map_tree_at(items: Seq<AnyValue>, m: Seq<(String, TaskDefinition)>, i: int)
    requires
        map_tree(items, m),
        0 <= i < m.len(),
    ensures
        items.len() == m.len(),
        items[i] is Object,
        items[i]->Object_0@.len() == 1,
        items[i]->Object_0@[0].0@ == m[i].0@,
        task_tree(items[i]->Object_0@[0].1, m[i].1),
    decreases m.len(),
{
    if i < m.len() - 1 {
        lemma_map_tree_at(items.drop_last(), m.drop_last(), i);
        assert(items.drop_last()[i] == items[i]);
        assert(m.drop_last()[i] == m[i]);
    }
}

/// Each task of a simple list is simple.
pub proof fn lemma_simple_map_at(m: Seq<(String, TaskDefinition)>, i: int)
    requires
        simple_map(m),
        0 <= i < m.len(),
    ensures
        simple_task(m[i].1),
    decreases m.len(),
{
    if i < m.len() - 1 {
        lemma_simple_map_at(m.drop_last(), i);
        assert(m.drop_last()[i] == m[i]);
    }
}

/// The tree of a loop.
fn encode_for_loop(x: &ForLoopDefinition) -> (r: AnyValue)
    ensures
        r is Object,
        value_of(fields_of(r), "each"@) == Some(AnyValue::String(x.each)),
        x.input is None ==> loop_tree(r, *x),
{
    proof {
        lemma_key_texts();
        reveal_strlit("each");
        reveal_strlit("in");
        reveal_strlit("at");
    }
    let mut out: Vec<(String, AnyValue)> = Vec::new();
    put(&mut out, "each", AnyValue::String(x.each.clone()));
    put(&mut out, "in", AnyValue::String(x.in_.clone()));
    let ghost s2 = out@;
    put_opt_string(&mut out, "at", &x.at);
    let ghost s3 = out@;
    match &x.input {
        Some(s) => put(&mut out, "input", encode_input_data_model(s)),
        None => {},
    }
    proof {
        assert(out@[0] == s2[0] && out@[1] == s2[1]);
        assert("each"@.len() == 4 && "in"@.len() == 2 && "at"@.len() == 2);
        assert("in"@[0] == 'i' && "at"@[0] == 'a');
        assert("each"@ != "in"@);
        lemma_found_at(out@, "each"@, 0);
        lemma_found_at(out@, "in"@, 1);
        if x.input is None {
            assert(out@ == s3);
            assert(pairs(s3)[0] == (s3[0].0@, s3[0].1));
            assert(pairs(s3)[1] == (s3[1].0@, s3[1].1));
            assert forall|i: int| 0 <= i < out@.len() implies set!["each"@, "in"@, "at"@].contains(
                #[trigger] out@[i].0@,
            ) by {
                if i >= 2 {
                    assert(pairs(s3)[i] == (s3[i].0@, s3[i].1));
                }
            }
            if x.at is Some {
                {
                    assert(pairs(s3).len() == s3.len());
                    assert(pairs(s2).len() == s2.len());
                    assert(pairs(s3) == pairs(s2) + opt_string_pairs("at"@, x.at));
                    assert(s3.len() == 3);
                    assert(pairs(s3)[2] == (s3[2].0@, s3[2].1));
                    lemma_found_at(out@, "at"@, 2);
                }
            } else {
                {
                    assert(out@.len() == 2);
                    assert(!has_key(out@, "at"@));
                }
            }
        }
    }
    AnyValue::Object(out)
}

/// The tree of a call task.
fn encode_call_task(x: &CallTaskDefinition) -> (r: AnyValue)
    ensures
        r is Object,
        keys_within(r->Object_0@, set!["call"@, "with"@, "await"@].union(common_keys())),
        has_key(r->Object_0@, "call"@),
        x.common == no_fields() && x.with is None && x.await_ is None ==> single_field(r, "call"@) == Some(
            AnyValue::String(x.call),
        ),
        simple_common(x.common) ==> call_tree(r, *x) && common_tree(fields_of(r), x.common),
{
    proof {
        lemma_key_texts();
    }
    let mut out: Vec<(String, AnyValue)> = Vec::new();
    put(&mut out, "call", AnyValue::String(x.call.clone()));
    let ghost s1 = out@;
    match &x.with {
        Some(p) => put(&mut out, "with", value_pairs_value(p)),
        None => {},
    }
    let ghost s2 = out@;
    put_opt_bool(&mut out, "await", x.await_);
    let ghost s3 = out@;
    encode_common_into(&x.common, &mut out);
    proof {
        assert(out@[0] == s1[0]);
        assert forall|i: int| 0 <= i < out@.len() implies set!["call"@, "with"@, "await"@].union(common_keys()).contains(
            #[trigger] out@[i].0@,
        ) by {
            if i < s3.len() {
                assert(out@[i] == s3[i]);
                if i >= s2.len() {
                    assert(pairs(s3)[i] == (s3[i].0@, s3[i].1));
                } else if i >= s1.len() {
                    assert(s3[i] == s2[i]);
                } else {
                    assert(s3[i] == s1[i]);
                }
            }
        }
        if x.common == no_fields() {
            assert(out@ == s3);
        }
        if simple_common(x.common) {
            let pre = s3;
            let sfx = out@.subrange(pre.len() as int, out@.len() as int);
            assert(out@ =~= pre + sfx);
            lemma_found_at(pre, "call"@, 0);
            assert forall|i: int| 0 <= i < pre.len() implies set!["call"@, "with"@, "await"@].contains(
                #[trigger] pre[i].0@,
            ) by {
                if i >= s2.len() {
                    assert(pairs(s3)[i] == (s3[i].0@, s3[i].1));
                } else if i >= s1.len() {
                    assert(s3[i] == s2[i]);
                } else {
                    assert(s3[i] == s1[i]);
                }
            }
            if x.with is Some {
                {
                    assert(s3[1] == s2[1]);
                    lemma_found_at(pre, "with"@, 1);
                }
            } else {
                {
                    assert forall|i: int| 0 <= i < pre.len() implies #[trigger] pre[i].0@ != "with"@ by {
                        if i >= s2.len() {
                            assert(pairs(s3)[i] == (s3[i].0@, s3[i].1));
                        } else {
                            assert(s3[i] == s1[i]);
                        }
                    }
                }
            }
            if x.await_ is Some {
                {
                    let p = s2.len() as int;
                    assert(pairs(s3).len() == s3.len());
                    assert(pairs(s2).len() == s2.len());
                    assert(pairs(s3) == pairs(s2) + opt_bool_pairs("await"@, x.await_));
                    assert(s3.len() == s2.len() + 1);
                    assert(pairs(s3)[p] == (s3[p].0@, s3[p].1));
                    assert forall|j: int| 0 <= j < p implies #[trigger] pre[j].0@ != "await"@ by {
                        assert(s3[j] == s2[j]);
                    }
                    lemma_found_at(pre, "await"@, p);
                }
            } else {
                {
                    assert(s3 == s2);
                    assert forall|i: int| 0 <= i < pre.len() implies #[trigger] pre[i].0@ != "await"@ by {
                        assert(s3[i] == s2[i]);
                    }
                }
            }
            lemma_with_common(pre, sfx, set!["call"@, "with"@, "await"@], x.common);
        }
    }
    AnyValue::Object(out)
}

/// The tree of a 'set' task.
fn encode_set_task(x: &SetTaskDefinition) -> (r: AnyValue)
    ensures
        r is Object,
        keys_within(r->Object_0@, set!["set"@].union(common_keys())),
        has_key(r->Object_0@, "set"@),
        x.common == no_fields() && x.set is Expression ==> single_field(r, "set"@) == Some(
            AnyValue::String(x.set->Expression_0),
        ),
        simple_common(x.common) ==> set_tree(r, *x) && common_tree(fields_of(r), x.common),
{
    proof {
        lemma_key_texts();
    }
    let mut out: Vec<(String, AnyValue)> = Vec::new();
    put(&mut out, "set", encode_set_value(&x.set));
    let ghost s1 = out@;
    encode_common_into(&x.common, &mut out);
    proof {
        assert(out@[0] == s1[0]);
        if x.common == no_fields() {
            assert(out@ == s1);
        }
        if simple_common(x.common) {
            let pre = s1;
            let sfx = out@.subrange(pre.len() as int, out@.len() as int);
            assert(out@ =~= pre + sfx);
            lemma_found_at(pre, "set"@, 0);
            lemma_with_common(pre, sfx, set!["set"@], x.common);
        }
    }
    AnyValue::Object(out)
}

/// The tree of a wait task.
fn encode_wait_task(x: &WaitTaskDefinition) -> (r: AnyValue)
    ensures
        r is Object,
        keys_within(r->Object_0@, set!["wait"@].union(common_keys())),
        has_key(r->Object_0@, "wait"@),
        x.common == no_fields() ==> plain_wait_tree(r, x.wait),
        simple_common(x.common) ==> wait_tree(r, *x) && common_tree(fields_of(r), x.common),
{
    proof {
        lemma_key_texts();
    }
    let mut out: Vec<(String, AnyValue)> = Vec::new();
    put(&mut out, "wait", encode_duration_or_expression(&x.wait));
    let ghost s1 = out@;
    encode_common_into(&x.common, &mut out);
    proof {
        assert(out@[0] == s1[0]);
        if x.common == no_fields() {
            assert(out@ == s1);
        }
        if simple_common(x.common) {
            let pre = s1;
            let sfx = out@.subrange(pre.len() as int, out@.len() as int);
            assert(out@ =~= pre + sfx);
            lemma_found_at(pre, "wait"@, 0);
            lemma_with_common(pre, sfx, set!["wait"@], x.common);
        }
    }
    AnyValue::Object(out)
}

/// The tree of a 'do' task.
fn encode_do_task(x: &DoTaskDefinition) -> (r: AnyValue)
    ensures
        r is Object,
        keys_within(r->Object_0@, set!["do"@].union(common_keys())),
        has_key(r->Object_0@, "do"@),
        simple_common(x.common) && simple_map(x.do_@) ==> task_tree(r, TaskDefinition::Do(*x)),
    decreases x,
{
    proof {
        lemma_key_texts();
    }
    let mut out: Vec<(String, AnyValue)> = Vec::new();
    put(&mut out, "do", encode_task_map(&x.do_));
    let ghost s1 = out@;
    encode_common_into(&x.common, &mut out);
    proof {
        assert(out@[0] == s1[0]);
        if x.common == no_fields() {
            assert(out@ == s1);
        }
        if simple_common(x.common) {
            let pre = s1;
            let sfx = out@.subrange(pre.len() as int, out@.len() as int);
            assert(out@ =~= pre + sfx);
            lemma_found_at(pre, "do"@, 0);
            lemma_with_common(pre, sfx, set!["do"@], x.common);
        }
    }
    AnyValue::Object(out)
}

/// The tree of an error.
fn encode_error(x: &ErrorDefinition) -> (r: AnyValue)
    ensures
        error_tree(r, *x),
{
    proof {
        reveal_strlit("type");
        reveal_strlit("title");
        reveal_strlit("status");
        reveal_strlit("detail");
        reveal_strlit("instance");
        assert("type"@.len() == 4 && "title"@.len() == 5 && "status"@.len() == 6 && "detail"@.len() == 6);
        assert("instance"@.len() == 8 && "status"@[0] == 's' && "detail"@[0] == 'd');
    }
    let mut out: Vec<(String, AnyValue)> = Vec::new();
    put(&mut out, "type", AnyValue::String(x.type_.clone()));
    put(&mut out, "title", AnyValue::String(x.title.clone()));
    let status = x.status.deep_clone();
    put(&mut out, "status", status);
    let ghost s3 = out@;
    put_opt_string(&mut out, "detail", &x.detail);
    put_opt_string(&mut out, "instance", &x.instance);
    proof {
        let a = seq![
            ("type"@, AnyValue::String(x.type_)),
            ("title"@, AnyValue::String(x.title)),
            ("status"@, status),
        ];
        let b = opt_string_pairs("detail"@, x.detail);
        let c = opt_string_pairs("instance"@, x.instance);
        assert(pairs(s3) =~= a);
        assert(pairs(out@) =~= a + b + c);
        lemma_lookup_opt_string("detail"@, x.detail);
        lemma_lookup_opt_string("instance"@, x.instance);
        reveal_with_fuel(lookup, 4);
        let keys = seq!["type"@, "title"@, "status"@, "detail"@, "instance"@];
        assert forall|j: int| 0 <= j < 5 implies value_of(out@, #[trigger] keys[j]) == (if lookup(a, keys[j]) is Some {
            lookup(a, keys[j])
        } else if lookup(b, keys[j]) is Some {
            lookup(b, keys[j])
        } else {
            lookup(c, keys[j])
        }) by {
            lemma_value_of_lookup(out@, keys[j]);
            lemma_lookup_concat(a + b, c, keys[j]);
            lemma_lookup_concat(a, b, keys[j]);
        }
        assert(keys[0] == "type"@ && keys[1] == "title"@ && keys[2] == "status"@ && keys[3] == "detail"@);
        assert(keys[4] == "instance"@);
        assert forall|i: int| 0 <= i < out@.len() implies set!["type"@, "title"@, "status"@, "detail"@, "instance"@].contains(
            #[trigger] out@[i].0@,
        ) by {
            assert(pairs(out@)[i] == (out@[i].0@, out@[i].1));
        }
    }
    AnyValue::Object(out)
}

/// The tree of what a 'raise' task raises.
fn encode_raise_error(x: &RaiseErrorDefinition) -> (r: AnyValue)
    ensures
        raise_error_tree(r, *x),
{
    let mut out: Vec<(String, AnyValue)> = Vec::new();
    put(&mut out, "error", encode_error_or_reference(&x.error));
    proof {
        lemma_found_at(out@, "error"@, 0);
    }
    AnyValue::Object(out)
}

/// The tree of a 'raise' task.
fn encode_raise_task(x: &RaiseTaskDefinition) -> (r: AnyValue)
    ensures
        r is Object,
        keys_within(r->Object_0@, set!["raise"@].union(common_keys())),
        has_key(r->Object_0@, "raise"@),
        simple_common(x.common) ==> task_tree(r, TaskDefinition::Raise(*x)),
{
    proof {
        lemma_key_texts();
    }
    let mut out: Vec<(String, AnyValue)> = Vec::new();
    put(&mut out, "raise", encode_raise_error(&x.raise));
    let ghost s1 = out@;
    encode_common_into(&x.common, &mut out);
    proof {
        assert(out@[0] == s1[0]);
        if simple_common(x.common) {
            let pre = s1;
            let sfx = out@.subrange(pre.len() as int, out@.len() as int);
            assert(out@ =~= pre + sfx);
            lemma_found_at(pre, "raise"@, 0);
            lemma_with_common(pre, sfx, set!["raise"@], x.common);
        }
    }
    AnyValue::Object(out)
}

/// The tree of a switch case.
fn encode_switch_case(x: &SwitchCaseDefinition) -> (r: AnyValue)
    ensures
        case_tree(r, *x),
{
    proof {
        reveal_strlit("when");
        reveal_strlit("then");
        assert("when"@.len() == 4 && "then"@.len() == 4 && "when"@[0] == 'w' && "then"@[0] == 't');
    }
    let mut out: Vec<(String, AnyValue)> = Vec::new();
    proof {
        assert(pairs(out@) =~= Seq::<(Seq<char>, AnyValue)>::empty());
    }
    put_opt_string(&mut out, "when", &x.when);
    put_opt_string(&mut out, "then", &x.then_);
    proof {
        let pw = opt_string_pairs("when"@, x.when);
        let pt = opt_string_pairs("then"@, x.then_);
        assert(pairs(out@) =~= pw + pt);
        lemma_lookup_opt_string("when"@, x.when);
        lemma_lookup_opt_string("then"@, x.then_);
        lemma_value_of_lookup(out@, "when"@);
        lemma_value_of_lookup(out@, "then"@);
        lemma_lookup_concat(pw, pt, "when"@);
        lemma_lookup_concat(pw, pt, "then"@);
        assert forall|i: int| 0 <= i < out@.len() implies set!["when"@, "then"@].contains(#[trigger] out@[i].0@) by {
            assert(pairs(out@)[i] == (out@[i].0@, out@[i].1));
        }
    }
    AnyValue::Object(out)
}

/// The tree of a 'switch' task.
fn encode_switch_task(x: &SwitchTaskDefinition) -> (r: AnyValue)
    ensures
        r is Object,
        keys_within(r->Object_0@, set!["switch"@].union(common_keys())),
        has_key(r->Object_0@, "switch"@),
        simple_common(x.common) ==> task_tree(r, TaskDefinition::Switch(*x)),
{
    proof {
        lemma_key_texts();
    }
    let mut out: Vec<(String, AnyValue)> = Vec::new();
    put(&mut out, "switch", encode_switch_cases(&x.switch));
    let ghost s1 = out@;
    encode_common_into(&x.common, &mut out);
    proof {
        assert(out@[0] == s1[0]);
        if simple_common(x.common) {
            let pre = s1;
            let sfx = out@.subrange(pre.len() as int, out@.len() as int);
            assert(out@ =~= pre + sfx);
            lemma_found_at(pre, "switch"@, 0);
            lemma_with_common(pre, sfx, set!["switch"@], x.common);
        }
    }
    AnyValue::Object(out)
}

/// The tree of an event.
fn encode_event(x: &EventDefinition) -> (r: AnyValue)
    ensures
        event_tree(r, *x),
{
    let mut out: Vec<(String, AnyValue)> = Vec::new();
    put(&mut out, "with", value_pairs_value(&x.with));
    proof {
        lemma_found_at(out@, "with"@, 0);
    }
    AnyValue::Object(out)
}

/// The tree of an event's emission.
fn encode_event_emission(x: &EventEmissionDefinition) -> (r: AnyValue)
    ensures
        emission_tree(r, *x),
{
    let mut out: Vec<(String, AnyValue)> = Vec::new();
    put(&mut out, "event", encode_event(&x.event));
    proof {
        lemma_found_at(out@, "event"@, 0);
    }
    AnyValue::Object(out)
}

/// The tree of an 'emit' task.
fn encode_emit_task(x: &EmitTaskDefinition) -> (r: AnyValue)
    ensures
        r is Object,
        keys_within(r->Object_0@, set!["emit"@].union(common_keys())),
        has_key(r->Object_0@, "emit"@),
        simple_common(x.common) ==> task_tree(r, TaskDefinition::Emit(*x)),
{
    proof {
        lemma_key_texts();
    }
    let mut out: Vec<(String, AnyValue)> = Vec::new();
    put(&mut out, "emit", encode_event_emission(&x.emit));
    let ghost s1 = out@;
    encode_common_into(&x.common, &mut out);
    proof {
        assert(out@[0] == s1[0]);
        if simple_common(x.common) {
            let pre = s1;
            let sfx = out@.subrange(pre.len() as int, out@.len() as int);
            assert(out@ =~= pre + sfx);
            lemma_found_at(pre, "emit"@, 0);
            lemma_with_common(pre, sfx, set!["emit"@], x.common);
        }
    }
    AnyValue::Object(out)
}

/// The tree of a fork's branches.
fn encode_branching(x: &BranchingDefinition) -> (r: AnyValue)
    ensures
        r is Object,
        simple_map(x.branches@) ==> branching_tree(r, *x),
    decreases x,
{
    proof {
        reveal_strlit("branches");
        reveal_strlit("compete");
        assert("branches"@.len() == 8 && "compete"@.len() == 7);
    }
    let mut out: Vec<(String, AnyValue)> = Vec::new();
    put(&mut out, "branches", encode_task_map(&x.branches));
    let ghost s1 = out@;
    put(&mut out, "compete", AnyValue::Bool(x.compete));
    proof {
        assert(out@[0] == s1[0]);
        lemma_found_at(out@, "branches"@, 0);
        lemma_found_at(out@, "compete"@, 1);
        assert forall|i: int| 0 <= i < out@.len() implies set!["branches"@, "compete"@].contains(#[trigger] out@[i].0@) by {
            if i == 0 {
                assert(out@[0] == s1[0]);
            }
        }
    }
    AnyValue::Object(out)
}

/// The tree of a 'fork' task.
fn encode_fork_task(x: &ForkTaskDefinition) -> (r: AnyValue)
    ensures
        r is Object,
        keys_within(r->Object_0@, set!["fork"@].union(common_keys())),
        has_key(r->Object_0@, "fork"@),
        simple_common(x.common) && simple_map(x.fork.branches@) ==> task_tree(r, TaskDefinition::Fork(*x)),
    decreases x,
{
    proof {
        lemma_key_texts();
    }
    let mut out: Vec<(String, AnyValue)> = Vec::new();
    put(&mut out, "fork", encode_branching(&x.fork));
    let ghost s1 = out@;
    encode_common_into(&x.common, &mut out);
    proof {
        assert(out@[0] == s1[0]);
        if simple_common(x.common) && simple_map(x.fork.branches@) {
            let pre = s1;
            let sfx = out@.subrange(pre.len() as int, out@.len() as int);
            assert(out@ =~= pre + sfx);
            lemma_found_at(pre, "fork"@, 0);
            assert("fork"@ != "if"@ && "fork"@ != "then"@ && "fork"@ != "timeout"@);
            lemma_with_common(pre, sfx, set!["fork"@], x.common);
        }
    }
    AnyValue::Object(out)
}

/// The tree of a 'for' task.
fn encode_for_task(x: &ForTaskDefinition) -> (r: AnyValue)
    ensures
        r is Object,
        keys_within(r->Object_0@, set!["for"@, "while"@, "do"@].union(common_keys())),
        has_key(r->Object_0@, "for"@),
        simple_common(x.common) && x.for_.input is None && simple_map(x.do_@) ==> task_tree(
            r,
            TaskDefinition::For(*x),
        ),
    decreases x,
{
    proof {
        lemma_key_texts();
    }
    let mut out: Vec<(String, AnyValue)> = Vec::new();
    put(&mut out, "for", encode_for_loop(&x.for_));
    let ghost s1 = out@;
    put_opt_string(&mut out, "while", &x.while_);
    let ghost s2 = out@;
    put(&mut out, "do", encode_task_map(&x.do_));
    let ghost s3 = out@;
    encode_common_into(&x.common, &mut out);
    proof {
        assert(out@[0] == s1[0]);
        assert forall|i: int| 0 <= i < out@.len() implies set!["for"@, "while"@, "do"@].union(common_keys()).contains(
            #[trigger] out@[i].0@,
        ) by {
            if i < s3.len() {
                assert(out@[i] == s3[i]);
                if i >= s2.len() {
                } else if i >= s1.len() {
                    assert(s3[i] == s2[i]);
                    assert(pairs(s2)[i] == (s2[i].0@, s2[i].1));
                } else {
                    assert(s3[i] == s1[i]);
                }
            }
        }
        if x.common == no_fields() {
            assert(out@ == s3);
        }
        if simple_common(x.common) && x.for_.input is None && simple_map(x.do_@) {
            let pre = s3;
            let sfx = out@.subrange(pre.len() as int, out@.len() as int);
            assert(out@ =~= pre + sfx);
            lemma_found_at(pre, "for"@, 0);
            let p = s2.len() as int;
            assert forall|j: int| 0 <= j < p implies #[trigger] pre[j].0@ != "do"@ by {
                assert(s3[j] == s2[j]);
                if j >= 1 {
                    assert(pairs(s2)[j] == (s2[j].0@, s2[j].1));
                }
            }
            lemma_found_at(pre, "do"@, p);
            assert forall|i: int| 0 <= i < pre.len() implies set!["for"@, "while"@, "do"@].contains(
                #[trigger] pre[i].0@,
            ) by {
                if i < s2.len() {
                    assert(s3[i] == s2[i]);
                    if i >= 1 {
                        assert(pairs(s2)[i] == (s2[i].0@, s2[i].1));
                    }
                }
            }
            if x.while_ is Some {
                {
                    assert(pairs(s2).len() == s2.len());
                    assert(pairs(s1).len() == s1.len());
                    assert(pairs(s2) == pairs(s1) + opt_string_pairs("while"@, x.while_));
                    assert(s2.len() == 2);
                    assert(pairs(s2)[1] == (s2[1].0@, s2[1].1));
                    assert(s3[1] == s2[1]);
                    lemma_found_at(pre, "while"@, 1);
                }
            } else {
                {
                    assert(s2.len() == 1);
                    assert forall|i: int| 0 <= i < pre.len() implies #[trigger] pre[i].0@ != "while"@ by {
                        if i == 0 {
                            assert(s3[0] == s1[0]);
                        }
                    }
                }
            }
            lemma_with_common(pre, sfx, set!["for"@, "while"@, "do"@], x.common);
        }
    }
    AnyValue::Object(out)
}

/// The keys of the fields that every task may carry.
pub open spec fn common_keys() -> Set<Seq<char>> {
    set!["if"@, "input"@, "output"@, "export"@, "timeout"@, "then"@, "metadata"@]
}

/// The text of the first field named `key`, when it holds a string.
pub open spec fn text_at(f: Seq<(String, AnyValue)>, key: Seq<char>) -> Option<String> {
    match value_of(f, key) {
        Some(AnyValue::String(s)) => Some(s),
        _ => None,
    }
}

/// The value of the one field of an object whose only field is named `key`.
pub open spec fn single_field(v: AnyValue, key: Seq<char>) -> Option<AnyValue> {
    if v is Object && v->Object_0@.len() == 1 && v->Object_0@[0].0@ == key {
        Some(v->Object_0@[0].1)
    } else {
        None
    }
}

/// `v` is the tree of a wait task without common fields: one field `wait` holding the tree of
/// its length of time.
pub open spec fn plain_wait_tree(v: AnyValue, d: OneOfDurationOrIso8601Expression) -> bool {
    single_field(v, "wait"@) is Some && duration_or_expression_tree(single_field(v, "wait"@)->0, d)
}

/// What an object with one field `wait` reads as, when that field reads as a length of time.
pub open spec fn plain_wait_from(v: AnyValue) -> Option<OneOfDurationOrIso8601Expression> {
    match single_field(v, "wait"@) {
        Some(x) => match duration_or_expression_from(x) {
            Ok(d) => Some(d),
            Err(_) => None,
        },
        None => None,
    }
}

/// The text of an object's one field, when the field is named `key` and holds a string.
pub open spec fn plain_text_field(v: AnyValue, key: Seq<char>) -> Option<String> {
    match single_field(v, key) {
        Some(AnyValue::String(s)) => Some(s),
        _ => None,
    }
}

/// What the tree of a plain task reads as: an object with the one field `wait` holding a length
/// of time, `set` holding an expression, or `call` holding a function name.
pub open spec fn plain_task_read(x: AnyValue) -> Option<TaskDefinition> {
    if plain_wait_from(x) is Some {
        Some(TaskDefinition::Wait(WaitTaskDefinition { wait: plain_wait_from(x)->0, common: no_fields() }))
    } else if plain_text_field(x, "set"@) is Some {
        Some(TaskDefinition::SetData(
            SetTaskDefinition { set: SetValue::Expression(plain_text_field(x, "set"@)->0), common: no_fields() },
        ))
    } else if plain_text_field(x, "call"@) is Some {
        Some(TaskDefinition::Call(
            CallTaskDefinition { call: plain_text_field(x, "call"@)->0, with: None, await_: None, common: no_fields() },
        ))
    } else {
        None
    }
}

/// A task with no common fields that is a wait, a 'set' of one expression, or a call of a
/// function with no arguments and the default for waiting.
pub open spec fn is_plain(t: TaskDefinition) -> bool {
    match t {
        TaskDefinition::Wait(w) => w.common == no_fields(),
        TaskDefinition::SetData(s) => s.common == no_fields() && s.set is Expression,
        TaskDefinition::Call(c) => c.common == no_fields() && c.with is None && c.await_ is None,
        _ => false,
    }
}

/// In an object with one field, that field is found by its name and no other name is present.
pub proof fn lemma_single_field(v: AnyValue, key: Seq<char>)
    requires
        single_field(v, key) is Some,
    ensures
        value_of(fields_of(v), key) == single_field(v, key),
        forall|k: Seq<char>| k != key ==> !#[trigger] has_key(fields_of(v), k),
{
    let f = fields_of(v);
    assert(first_key_at(f, key, 0));
    lemma_key_index(f, key);
    lemma_first_key_unique(f, key, 0, key_index(f, key));
    assert forall|k: Seq<char>| k != key implies !#[trigger] has_key(f, k) by {
        if has_key(f, k) {
            let i = choose|i: int| 0 <= i < f.len() && #[trigger] f[i].0@ == k;
            assert(i == 0);
        }
    }
}

/// No field of `f` is one of the common fields.
pub open spec fn no_common_keys(f: Seq<(String, AnyValue)>) -> bool {
    &&& !has_key(f, "if"@)
    &&& !has_key(f, "input"@)
    &&& !has_key(f, "output"@)
    &&& !has_key(f, "export"@)
    &&& !has_key(f, "timeout"@)
    &&& !has_key(f, "then"@)
    &&& !has_key(f, "metadata"@)
}

/// Common fields whose tree is stated: a condition, a timeout and what to do next, with no
/// input, output, export or metadata.
pub open spec fn simple_common(c: TaskDefinitionFields) -> bool {
    c.input is None && c.output is None && c.export is None && c.metadata is None
}

/// The keys that stated common fields use.
pub open spec fn simple_common_keys() -> Set<Seq<char>> {
    set!["if"@, "then"@, "timeout"@]
}

/// The fields `f` hold the common fields `c`: `if` and `then` as strings when set, the timeout's
/// tree when set, and no input, output, export or metadata.
pub open spec fn common_tree(f: Seq<(String, AnyValue)>, c: TaskDefinitionFields) -> bool {
    &&& opt_string_field(f, "if"@) == Ok::<Option<String>, ()>(c.if_)
    &&& opt_string_field(f, "then"@) == Ok::<Option<String>, ()>(c.then_)
    &&& match c.timeout {
        Some(t) => value_of(f, "timeout"@) is Some && timeout_or_reference_tree(value_of(f, "timeout"@)->0, t),
        None => value_of(f, "timeout"@) is None,
    }
    &&& !has_key(f, "input"@) && !has_key(f, "output"@) && !has_key(f, "export"@) && !has_key(f, "metadata"@)
}

/// The common fields that `f` read as, when `common_read_ok(f)`.
pub open spec fn common_from(f: Seq<(String, AnyValue)>) -> TaskDefinitionFields {
    TaskDefinitionFields {
        if_: opt_string_field(f, "if"@)->Ok_0,
        input: None,
        output: None,
        export: None,
        timeout: match value_of(f, "timeout"@) {
            Some(x) => Some(timeout_or_reference_from(x)->Ok_0),
            None => None,
        },
        then_: opt_string_field(f, "then"@)->Ok_0,
        metadata: None,
    }
}

/// The common fields of `f` read without error and hold no input, output, export or metadata.
pub open spec fn common_read_ok(f: Seq<(String, AnyValue)>) -> bool {
    &&& opt_string_field(f, "if"@) is Ok
    &&& opt_string_field(f, "then"@) is Ok
    &&& match value_of(f, "timeout"@) {
        Some(x) => timeout_or_reference_from(x) is Ok,
        None => true,
    }
    &&& !has_key(f, "input"@) && !has_key(f, "output"@) && !has_key(f, "export"@) && !has_key(f, "metadata"@)
}

/// Looking a key up in two runs of fields, one after the other.
pub proof fn lemma_value_of_split(a: Seq<(String, AnyValue)>, b: Seq<(String, AnyValue)>, k: Seq<char>)
    ensures
        value_of(a + b, k) == if has_key(a, k) { value_of(a, k) } else { value_of(b, k) },
        has_key(a + b, k) == (has_key(a, k) || has_key(b, k)),
{
    lemma_value_of_lookup(a + b, k);
    lemma_value_of_lookup(a, k);
    lemma_value_of_lookup(b, k);
    assert(pairs(a + b) =~= pairs(a) + pairs(b));
    lemma_lookup_concat(pairs(a), pairs(b), k);
}

/// The fields of a task followed by its stated common fields: the task's own fields read as
/// before, and the common fields as the common fields.
pub proof fn lemma_with_common(pre: Seq<(String, AnyValue)>, sfx: Seq<(String, AnyValue)>, own: Set<Seq<char>>, c: TaskDefinitionFields)
    requires
        keys_within(pre, own),
        keys_within(sfx, simple_common_keys()),
        common_tree(sfx, c),
        forall|k: Seq<char>| own.contains(k) ==> !#[trigger] simple_common_keys().contains(k),
        forall|k: Seq<char>| own.contains(k) ==> k != "input"@ && k != "output"@ && k != "export"@ && k != "metadata"@,
    ensures
        keys_within(pre + sfx, own.union(simple_common_keys())),
        common_tree(pre + sfx, c),
        forall|k: Seq<char>| !simple_common_keys().contains(k) ==> #[trigger] value_of(pre + sfx, k) == value_of(pre, k),
{
    lemma_key_texts();
    assert forall|k: Seq<char>| !simple_common_keys().contains(k) implies #[trigger] value_of(pre + sfx, k) == value_of(pre, k) by {
        lemma_value_of_split(pre, sfx, k);
        if has_key(sfx, k) {
            let i = choose|i: int| 0 <= i < sfx.len() && #[trigger] sfx[i].0@ == k;
        }
    }
    assert forall|k: Seq<char>| simple_common_keys().contains(k) implies #[trigger] value_of(pre + sfx, k) == value_of(sfx, k) by {
        lemma_value_of_split(pre, sfx, k);
        if has_key(pre, k) {
            let i = choose|i: int| 0 <= i < pre.len() && #[trigger] pre[i].0@ == k;
        }
    }
    let f = pre + sfx;
    assert(simple_common_keys().contains("if"@) && simple_common_keys().contains("then"@));
    assert(simple_common_keys().contains("timeout"@));
    assert(value_of(f, "if"@) == value_of(sfx, "if"@));
    assert(value_of(f, "then"@) == value_of(sfx, "then"@));
    assert(value_of(f, "timeout"@) == value_of(sfx, "timeout"@));
    let others = seq!["input"@, "output"@, "export"@, "metadata"@];
    assert forall|j: int| 0 <= j < 4 implies !has_key(f, #[trigger] others[j]) by {
        lemma_value_of_split(pre, sfx, others[j]);
        if has_key(pre, others[j]) {
            let i = choose|i: int| 0 <= i < pre.len() && #[trigger] pre[i].0@ == others[j];
        }
    }
    assert(others[0] == "input"@ && others[1] == "output"@ && others[2] == "export"@ && others[3] == "metadata"@);
    assert forall|i: int| 0 <= i < f.len() implies own.union(simple_common_keys()).contains(#[trigger] f[i].0@) by {
        if i < pre.len() {
            assert(f[i] == pre[i]);
        } else {
            assert(f[i] == sfx[i - pre.len()]);
        }
    }
}

/// Fields that hold stated common fields read back as them.
pub proof fn lemma_common_round_trip(f: Seq<(String, AnyValue)>, c: TaskDefinitionFields)
    requires
        simple_common(c),
        common_tree(f, c),
    ensures
        common_read_ok(f),
        common_from(f) == c,
{
    if c.timeout is Some {
        law_timeout_round_trip(value_of(f, "timeout"@)->0, c.timeout->0);
    }
}

/// Appends the common fields of a task; nothing when none is set.
fn encode_common_into(c: &TaskDefinitionFields, out: &mut Vec<(String, AnyValue)>)
    ensures
        *c == no_fields() ==> final(out)@ == old(out)@,
        final(out)@.len() >= old(out)@.len(),
        forall|i: int| 0 <= i < old(out)@.len() ==> #[trigger] final(out)@[i] == old(out)@[i],
        forall|i: int| old(out)@.len() <= i < final(out)@.len() ==> common_keys().contains(#[trigger] final(out)@[i].0@),
        simple_common(*c) ==> common_tree(final(out)@.subrange(old(out)@.len() as int, final(out)@.len() as int), *c),
        simple_common(*c) ==> keys_within(
            final(out)@.subrange(old(out)@.len() as int, final(out)@.len() as int),
            simple_common_keys(),
        ),
{
    let ghost start = out@;
    put_opt_string(out, "if", &c.if_);
    proof { lemma_common_step(start, start, out@, "if"@); }
    let ghost p1 = out@;
    let ghost prev = out@;
    match &c.input {
        Some(s) => put(out, "input", encode_input_data_model(s)),
        None => {},
    }
    proof { lemma_common_step(start, prev, out@, "input"@); }
    let ghost prev = out@;
    match &c.output {
        Some(s) => put(out, "output", encode_output_data_model(s)),
        None => {},
    }
    proof { lemma_common_step(start, prev, out@, "output"@); }
    let ghost prev = out@;
    match &c.export {
        Some(s) => put(out, "export", encode_output_data_model(s)),
        None => {},
    }
    proof { lemma_common_step(start, prev, out@, "export"@); }
    let ghost prev = out@;
    let ghost p4 = out@;
    let ghost mut tv: AnyValue = AnyValue::Null;
    match &c.timeout {
        Some(t) => {
            let tree = encode_timeout_or_reference(t);
            proof {
                tv = tree;
            }
            put(out, "timeout", tree);
        },
        None => {},
    }
    proof { lemma_common_step(start, prev, out@, "timeout"@); }
    let ghost p5 = out@;
    let ghost prev = out@;
    put_opt_string(out, "then", &c.then_);
    proof { lemma_common_step(start, prev, out@, "then"@); }
    let ghost p6 = out@;
    let ghost prev = out@;
    match &c.metadata {
        Some(p) => put(out, "metadata", value_pairs_value(p)),
        None => {},
    }
    proof { lemma_common_step(start, prev, out@, "metadata"@); }
    proof {
        if *c == no_fields() {
            assert(out@ =~= start);
        }
        if simple_common(*c) {
            lemma_key_texts();
            let ti: Seq<(Seq<char>, AnyValue)> = if c.timeout is Some {
                seq![("timeout"@, tv)]
            } else {
                Seq::empty()
            };
            let pi = opt_string_pairs("if"@, c.if_);
            let pt = opt_string_pairs("then"@, c.then_);
            assert(p4 == p1);
            if c.timeout is Some {
                assert(pairs(p5) =~= pairs(p4) + ti) by {
                    assert(p5.drop_last() == p4);
                    assert(pairs(p5).drop_last() =~= pairs(p4));
                }
            } else {
                assert(pairs(p5) =~= pairs(p4) + ti);
            }
            assert(out@ == p6);
            let sfx = out@.subrange(start.len() as int, out@.len() as int);
            assert(out@ =~= start + sfx) by {
                assert forall|i: int| 0 <= i < start.len() implies out@[i] == start[i] by {}
            }
            assert(pairs(out@) =~= pairs(start) + pairs(sfx));
            assert(pairs(out@) =~= pairs(start) + (pi + ti + pt));
            let x = pi + ti + pt;
            assert(pairs(sfx).len() == x.len());
            assert forall|i: int| 0 <= i < x.len() implies pairs(sfx)[i] == x[i] by {
                assert(pairs(out@)[start.len() + i] == (pairs(start) + pairs(sfx))[start.len() + i]);
                assert(pairs(out@)[start.len() + i] == (pairs(start) + x)[start.len() + i]);
            }
            assert(pairs(sfx) =~= pi + ti + pt);
            lemma_lookup_opt_string("if"@, c.if_);
            lemma_lookup_opt_string("then"@, c.then_);
            reveal_with_fuel(lookup, 2);
            let keys = seq!["if"@, "then"@, "timeout"@, "input"@, "output"@, "export"@, "metadata"@];
            assert forall|j: int| 0 <= j < 7 implies value_of(sfx, #[trigger] keys[j]) == lookup(pi + ti + pt, keys[j]) && lookup(
                pi + ti + pt,
                keys[j],
            ) == (if lookup(pi, keys[j]) is Some {
                lookup(pi, keys[j])
            } else if lookup(ti, keys[j]) is Some {
                lookup(ti, keys[j])
            } else {
                lookup(pt, keys[j])
            }) by {
                lemma_value_of_lookup(sfx, keys[j]);
                lemma_lookup_concat(pi + ti, pt, keys[j]);
                lemma_lookup_concat(pi, ti, keys[j]);
            }
            assert(keys[0] == "if"@ && keys[1] == "then"@ && keys[2] == "timeout"@ && keys[3] == "input"@);
            assert(keys[4] == "output"@ && keys[5] == "export"@ && keys[6] == "metadata"@);
            assert forall|i: int| 0 <= i < sfx.len() implies simple_common_keys().contains(#[trigger] sfx[i].0@) by {
                assert(pairs(sfx)[i] == (sfx[i].0@, sfx[i].1));
                assert((pi + ti + pt)[i].0 == "if"@ || (pi + ti + pt)[i].0 == "timeout"@ || (pi + ti + pt)[i].0
                    == "then"@);
            }
        }
    }
}

/// One more common field keeps the fields before it and adds only common keys.
proof fn lemma_common_step(
    start: Seq<(String, AnyValue)>,
    prev: Seq<(String, AnyValue)>,
    next: Seq<(String, AnyValue)>,
    key: Seq<char>,
)
    requires
        common_keys().contains(key),
        prev.len() >= start.len(),
        forall|i: int| 0 <= i < start.len() ==> #[trigger] prev[i] == start[i],
        forall|i: int| start.len() <= i < prev.len() ==> common_keys().contains(#[trigger] prev[i].0@),
        next.len() >= prev.len(),
        forall|i: int| 0 <= i < prev.len() ==> #[trigger] next[i] == prev[i],
        forall|i: int| prev.len() <= i < next.len() ==> #[trigger] next[i].0@ == key,
    ensures
        next.len() >= start.len(),
        forall|i: int| 0 <= i < start.len() ==> #[trigger] next[i] == start[i],
        forall|i: int| start.len() <= i < next.len() ==> common_keys().contains(#[trigger] next[i].0@),
{
    assert forall|i: int| 0 <= i < start.len() implies #[trigger] next[i] == start[i] by {
        assert(next[i] == prev[i]);
    }
    assert forall|i: int| start.len() <= i < next.len() implies common_keys().contains(#[trigger] next[i].0@) by {
        if i < prev.len() {
            assert(next[i] == prev[i]);
        } else {
            assert(next[i].0@ == key);
        }
    }
}

/// Reads the common fields of a task from its object's fields.
fn decode_common_from(f: &Vec<(String, AnyValue)>) -> (r: Result<TaskDefinitionFields, DecodeError>)
    ensures
        no_common_keys(f@) ==> r == Ok::<TaskDefinitionFields, DecodeError>(no_fields()),
        common_read_ok(f@) ==> r == Ok::<TaskDefinitionFields, DecodeError>(common_from(f@)),
{
    let if_ = read_opt_string(f, "if")?;
    let input = match find_entry(f, "input") {
        Some(i) => Some(decode_input_data_model(&f[i].1, "input")?),
        None => None,
    };
    let output = match find_entry(f, "output") {
        Some(i) => Some(decode_output_data_model(&f[i].1, "output")?),
        None => None,
    };
    let export = match find_entry(f, "export") {
        Some(i) => Some(decode_output_data_model(&f[i].1, "export")?),
        None => None,
    };
    let timeout = match find_entry(f, "timeout") {
        Some(i) => Some(decode_timeout_or_reference(&f[i].1, "timeout")?),
        None => None,
    };
    let then_ = read_opt_string(f, "then")?;
    let metadata = read_opt_value_pairs(f, "metadata")?;
    Ok(TaskDefinitionFields { if_, input, output, export, timeout, then_, metadata })
}

/// The kind that an object's keys mark, tried in a fixed order: call, emit, for, fork, listen,
/// raise, run, set, switch, try, wait, and do last, so that an object with both `for` and `do`
/// is a 'for' task.
pub open spec fn task_shape(f: Seq<(String, AnyValue)>) -> Option<Seq<char>> {
    if has_key(f, TaskType::CALL@) {
        Some(TaskType::CALL@)
    } else if has_key(f, TaskType::EMIT@) {
        Some(TaskType::EMIT@)
    } else if has_key(f, TaskType::FOR@) {
        Some(TaskType::FOR@)
    } else if has_key(f, TaskType::FORK@) {
        Some(TaskType::FORK@)
    } else if has_key(f, TaskType::LISTEN@) {
        Some(TaskType::LISTEN@)
    } else if has_key(f, TaskType::RAISE@) {
        Some(TaskType::RAISE@)
    } else if has_key(f, TaskType::RUN@) {
        Some(TaskType::RUN@)
    } else if has_key(f, TaskType::SET@) {
        Some(TaskType::SET@)
    } else if has_key(f, TaskType::SWITCH@) {
        Some(TaskType::SWITCH@)
    } else if has_key(f, TaskType::TRY@) {
        Some(TaskType::TRY@)
    } else if has_key(f, TaskType::WAIT@) {
        Some(TaskType::WAIT@)
    } else if has_key(f, TaskType::DO@) {
        Some(TaskType::DO@)
    } else {
        None
    }
}

/// Reads a task, choosing its kind by the keys its object holds (see `task_shape`).
pub fn decode_task(v: &AnyValue, key: &str) -> (r: Result<TaskDefinition, DecodeError>)
    ensures
        !(v is Object) ==> (r matches Err(DecodeError::WrongType(k)) && k@ == key@),
        v is Object && task_shape(v->Object_0@) is None ==> r == Err::<TaskDefinition, DecodeError>(
            DecodeError::NoShapeMatched),
        r is Ok ==> v is Object && task_shape(v->Object_0@) == Some(kind_name(r->Ok_0)),
        r matches Ok(TaskDefinition::Call(t)) ==> value_of(fields_of(*v), "call"@) == Some(
            AnyValue::String(t.call)),
        r matches Ok(TaskDefinition::Do(t)) ==> value_of(fields_of(*v), "do"@) matches Some(d) && d is Array
            && singleton_names(d->Array_0@) == entry_names(t.do_@),
        r matches Ok(TaskDefinition::For(t)) ==> value_of(fields_of(*v), "do"@) matches Some(d) && d is Array
            && singleton_names(d->Array_0@) == entry_names(t.do_@),
        r matches Ok(TaskDefinition::SetData(t)) ==> value_of(fields_of(*v), "set"@) matches Some(x) && (x is String
            ==> t.set == SetValue::Expression(x->String_0)) && (x is Object ==> t.set is Entries
            && scalars_kept(AnyValue::Object(t.set->Entries_0), x)),
        r matches Ok(TaskDefinition::Wait(t)) ==> value_of(fields_of(*v), "wait"@) matches Some(x)
            && duration_or_expression_from(x) == Ok::<OneOfDurationOrIso8601Expression, ()>(t.wait),
        plain_wait_from(*v) is Some ==> r == Ok::<TaskDefinition, DecodeError>(
            TaskDefinition::Wait(WaitTaskDefinition { wait: plain_wait_from(*v)->0, common: no_fields() })),
        plain_text_field(*v, "set"@) is Some ==> r == Ok::<TaskDefinition, DecodeError>(TaskDefinition::SetData(
            SetTaskDefinition { set: SetValue::Expression(plain_text_field(*v, "set"@)->0), common: no_fields() },
        )),
        plain_text_field(*v, "call"@) is Some ==> r == Ok::<TaskDefinition, DecodeError>(TaskDefinition::Call(
            CallTaskDefinition { call: plain_text_field(*v, "call"@)->0, with: None, await_: None, common: no_fields() },
        )),
        plain_task_read(*v) is Some ==> r == Ok::<TaskDefinition, DecodeError>(plain_task_read(*v)->0),
        forall|t: TaskDefinition| #[trigger] task_tree(*v, t) ==> (r matches Ok(u) && same_task(u, t)),
    decreases v, 3int,
{
    proof {
        lemma_key_texts();
        if single_field(*v, "wait"@) is Some {
            lemma_single_field(*v, "wait"@);
        }
        if single_field(*v, "set"@) is Some {
            lemma_single_field(*v, "set"@);
        }
        if single_field(*v, "call"@) is Some {
            lemma_single_field(*v, "call"@);
        }
    }
    let f = match v {
        AnyValue::Object(f) => f,
        _ => {
            return Err(wrong_type(key));
        },
    };
    if find_entry(f, TaskType::CALL).is_some() {
        Ok(TaskDefinition::Call(decode_call_task(v, key)?))
    } else if find_entry(f, TaskType::EMIT).is_some() {
        Ok(TaskDefinition::Emit(decode_emit_task(v, key)?))
    } else if find_entry(f, TaskType::FOR).is_some() {
        Ok(TaskDefinition::For(decode_for_task(v, key)?))
    } else if find_entry(f, TaskType::FORK).is_some() {
        Ok(TaskDefinition::Fork(decode_fork_task(v, key)?))
    } else if find_entry(f, TaskType::LISTEN).is_some() {
        Ok(TaskDefinition::Listen(decode_listen_task(v, key)?))
    } else if find_entry(f, TaskType::RAISE).is_some() {
        Ok(TaskDefinition::Raise(decode_raise_task(v, key)?))
    } else if find_entry(f, TaskType::RUN).is_some() {
        Ok(TaskDefinition::Run(decode_run_task(v, key)?))
    } else if find_entry(f, TaskType::SET).is_some() {
        Ok(TaskDefinition::SetData(decode_set_task(v, key)?))
    } else if find_entry(f, TaskType::SWITCH).is_some() {
        Ok(TaskDefinition::Switch(decode_switch_task(v, key)?))
    } else if find_entry(f, TaskType::TRY).is_some() {
        Ok(TaskDefinition::Try(decode_try_task(v, key)?))
    } else if find_entry(f, TaskType::WAIT).is_some() {
        Ok(TaskDefinition::Wait(decode_wait_task(v, key)?))
    } else if find_entry(f, TaskType::DO).is_some() {
        Ok(TaskDefinition::Do(decode_do_task(v, key)?))
    } else {
        Err(DecodeError::NoShapeMatched)
    }
}

/// The texts of the keys that tasks use, as far as telling them apart needs.
proof fn lemma_key_texts()
    ensures
        "call"@.len() == 4 && "call"@[0] == 'c' && "call"@[1] == 'a',
        "emit"@.len() == 4 && "emit"@[0] == 'e' && "emit"@[1] == 'm',
        "for"@.len() == 3 && "for"@[0] == 'f' && "for"@[1] == 'o',
        "fork"@.len() == 4 && "fork"@[0] == 'f' && "fork"@[1] == 'o' && "fork"@[3] == 'k',
        "listen"@.len() == 6 && "listen"@[0] == 'l' && "listen"@[1] == 'i',
        "raise"@.len() == 5 && "raise"@[0] == 'r' && "raise"@[1] == 'a',
        "run"@.len() == 3 && "run"@[0] == 'r' && "run"@[1] == 'u',
        "set"@.len() == 3 && "set"@[0] == 's' && "set"@[1] == 'e',
        "switch"@.len() == 6 && "switch"@[0] == 's' && "switch"@[1] == 'w',
        "try"@.len() == 3 && "try"@[0] == 't' && "try"@[1] == 'r',
        "wait"@.len() == 4 && "wait"@[0] == 'w' && "wait"@[1] == 'a',
        "do"@.len() == 2 && "do"@[0] == 'd' && "do"@[1] == 'o',
        "with"@.len() == 4 && "with"@[0] == 'w' && "with"@[1] == 'i',
        "await"@.len() == 5 && "await"@[0] == 'a' && "await"@[1] == 'w',
        "while"@.len() == 5 && "while"@[0] == 'w' && "while"@[1] == 'h',
        "foreach"@.len() == 7 && "foreach"@[0] == 'f' && "foreach"@[1] == 'o',
        "catch"@.len() == 5 && "catch"@[0] == 'c' && "catch"@[1] == 'a',
        "if"@.len() == 2 && "if"@[0] == 'i' && "if"@[1] == 'f',
        "input"@.len() == 5 && "input"@[0] == 'i' && "input"@[1] == 'n',
        "output"@.len() == 6 && "output"@[0] == 'o' && "output"@[1] == 'u',
        "export"@.len() == 6 && "export"@[0] == 'e' && "export"@[1] == 'x',
        "timeout"@.len() == 7 && "timeout"@[0] == 't' && "timeout"@[1] == 'i',
        "then"@.len() == 4 && "then"@[0] == 't' && "then"@[1] == 'h',
        "metadata"@.len() == 8 && "metadata"@[0] == 'm' && "metadata"@[1] == 'e',
        "document"@.len() == 8 && "document"@[0] == 'd' && "document"@[1] == 'o',
        "use"@.len() == 3 && "use"@[0] == 'u' && "use"@[1] == 's',
        "schedule"@.len() == 8 && "schedule"@[0] == 's' && "schedule"@[1] == 'c',
        "evaluate"@.len() == 8 && "evaluate"@[0] == 'e' && "evaluate"@[1] == 'v',
        "each"@.len() == 4 && "each"@[0] == 'e' && "each"@[1] == 'a',
        "in"@.len() == 2 && "in"@[0] == 'i' && "in"@[1] == 'n',
        "at"@.len() == 2 && "at"@[0] == 'a' && "at"@[1] == 't',
        "raise"@.len() == 5,
{
    reveal_strlit("each");
    reveal_strlit("in");
    reveal_strlit("at");
    reveal_strlit("document");
    reveal_strlit("use");
    reveal_strlit("schedule");
    reveal_strlit("evaluate");
    reveal_strlit("call");
    reveal_strlit("emit");
    reveal_strlit("for");
    reveal_strlit("fork");
    reveal_strlit("listen");
    reveal_strlit("raise");
    reveal_strlit("run");
    reveal_strlit("set");
    reveal_strlit("switch");
    reveal_strlit("try");
    reveal_strlit("wait");
    reveal_strlit("do");
    reveal_strlit("with");
    reveal_strlit("await");
    reveal_strlit("while");
    reveal_strlit("foreach");
    reveal_strlit("catch");
    reveal_strlit("if");
    reveal_strlit("input");
    reveal_strlit("output");
    reveal_strlit("export");
    reveal_strlit("timeout");
    reveal_strlit("then");
    reveal_strlit("metadata");
}

/// The tree of a task: one object holding the fields of its kind and the common fields. Its
/// keys mark the task's kind, so that reading it back chooses that kind again.
pub fn encode_task(t: &TaskDefinition) -> (r: AnyValue)
    ensures
        r is Object,
        task_shape(r->Object_0@) == Some(kind_name(*t)),
        *t is Wait && t->Wait_0.common == no_fields() ==> plain_wait_tree(r, t->Wait_0.wait),
        *t is SetData && t->SetData_0.common == no_fields() && t->SetData_0.set is Expression ==> single_field(
            r,
            "set"@,
        ) == Some(AnyValue::String(t->SetData_0.set->Expression_0)),
        *t is Call && t->Call_0.common == no_fields() && t->Call_0.with is None && t->Call_0.await_ is None
            ==> single_field(r, "call"@) == Some(AnyValue::String(t->Call_0.call)),
        is_plain(*t) ==> plain_task_read(r) == Some(*t),
        simple_task(*t) ==> task_tree(r, *t),
    decreases t,
{
    proof {
        lemma_key_texts();
    }
    let r = match t {
        TaskDefinition::Call(x) => encode_call_task(x),
        TaskDefinition::Do(x) => encode_do_task(x),
        TaskDefinition::Emit(x) => encode_emit_task(x),
        TaskDefinition::For(x) => encode_for_task(x),
        TaskDefinition::Fork(x) => encode_fork_task(x),
        TaskDefinition::Listen(x) => encode_listen_task(x),
        TaskDefinition::Raise(x) => encode_raise_task(x),
        TaskDefinition::Run(x) => encode_run_task(x),
        TaskDefinition::SetData(x) => encode_set_task(x),
        TaskDefinition::Switch(x) => encode_switch_task(x),
        TaskDefinition::Try(x) => encode_try_task(x),
        TaskDefinition::Wait(x) => encode_wait_task(x),
    };
    proof {
        if is_plain(*t) {
            if *t is Wait {
                law_duration_or_expression_round_trip(single_field(r, "wait"@)->0, t->Wait_0.wait);
            }
        }
    }
    r
}

/// The names of an array of single-field objects, in order; a name is `None` where an item is
/// not such an object.
pub open spec fn singleton_names(items: Seq<AnyValue>) -> Seq<Option<Seq<char>>> {
    items.map_values(|e: AnyValue| if e is Object && e->Object_0@.len() == 1 {
        Some(e->Object_0@[0].0@)
    } else {
        None::<Seq<char>>
    })
}

/// The names of a map's entries, in order.
pub open spec fn entry_names<V>(entries: Seq<(String, V)>) -> Seq<Option<Seq<char>>> {
    entries.map_values(|e: (String, V)| Some(e.0@))
}

/// Every item of the array `v` is an object with one field, whose value is the tree of a plain
/// task.
pub open spec fn all_plain_entries(v: AnyValue) -> bool {
    v is Array && forall|i: int| 0 <= i < v->Array_0@.len() ==> (#[trigger] v->Array_0@[i]) is Object
        && v->Array_0@[i]->Object_0@.len() == 1 && plain_task_read(v->Array_0@[i]->Object_0@[0].1) is Some
}

/// The tree of a named, ordered sequence of tasks: an array with one single-field object per
/// entry, in the map's order.
pub fn encode_task_map(m: &TaskMap) -> (r: AnyValue)
    ensures
        r is Array,
        singleton_names(r->Array_0@) == entry_names(m@),
        r->Array_0@.len() == m@.len(),
        simple_map(m@) ==> map_tree(r->Array_0@, m@),
        forall|i: int| 0 <= i < m@.len() ==> (#[trigger] r->Array_0@[i]) is Object && r->Array_0@[i]->Object_0@.len() == 1,
        forall|i: int| 0 <= i < m@.len() && is_plain(#[trigger] m@[i].1) ==> plain_task_read(
            r->Array_0@[i]->Object_0@[0].1,
        ) == Some(m@[i].1),
    decreases m,
{
    let mut out: Vec<AnyValue> = Vec::new();
    let mut i: usize = 0;
    while i < m.entries.len()
        invariant
            0 <= i <= m.entries.len(),
            out@.len() == i,
            forall|j: int| 0 <= j < i ==> #[trigger] singleton_names(out@)[j] == entry_names(m@)[j],
            forall|j: int| 0 <= j < i ==> (#[trigger] out@[j]) is Object && out@[j]->Object_0@.len() == 1,
            forall|j: int| 0 <= j < i && is_plain(#[trigger] m@[j].1) ==> plain_task_read(
                out@[j]->Object_0@[0].1,
            ) == Some(m@[j].1),
            simple_map(m@) ==> map_tree(out@, m@.subrange(0, i as int)),
        decreases m.entries.len() - i,
    {
        proof {
            assert(decreases_to!(*m => m.entries));
            assert(decreases_to!(m.entries => m.entries@));
            assert(decreases_to!(m.entries@ => m.entries@[i as int]));
            assert(decreases_to!(m.entries@[i as int] => m.entries@[i as int].1));
        }
        let task = encode_task(&m.entries[i].1);
        proof {
            if simple_map(m@) {
                lemma_simple_map_at(m@, i as int);
            }
        }
        let mut single: Vec<(String, AnyValue)> = Vec::new();
        single.push((m.entries[i].0.clone(), task));
        let ghost before = out@;
        out.push(AnyValue::Object(single));
        i = i + 1;
        proof {
            assert forall|j: int| 0 <= j < i implies #[trigger] singleton_names(out@)[j] == entry_names(m@)[j] by {
                if j < i - 1 {
                    assert(out@[j] == before[j]);
                    assert(singleton_names(before)[j] == entry_names(m@)[j]);
                }
            }
            if simple_map(m@) {
                let q = m@.subrange(0, i as int);
                assert(q.drop_last() =~= m@.subrange(0, i - 1));
                assert(out@.drop_last() =~= before);
                assert(q.last() == m@[i - 1]);
            }
            assert forall|j: int| 0 <= j < i && is_plain(#[trigger] m@[j].1) implies plain_task_read(
                out@[j]->Object_0@[0].1,
            ) == Some(m@[j].1) by {
                if j < i - 1 {
                    assert(out@[j] == before[j]);
                }
            }
        }
    }
    proof {
        assert(singleton_names(out@) =~= entry_names(m@));
        assert(m@.subrange(0, i as int) =~= m@);
    }
    AnyValue::Array(out)
}

/// Reads a named, ordered sequence of tasks from an array of single-field objects, keeping
/// the array's order.
pub fn decode_task_map(v: &AnyValue, key: &str) -> (r: Result<TaskMap, DecodeError>)
    ensures
        !(v is Array) ==> r is Err,
        r is Ok ==> v is Array && singleton_names(v->Array_0@) == entry_names(r->Ok_0@),
        forall|m: Seq<(String, TaskDefinition)>| v is Array && #[trigger] map_tree(v->Array_0@, m) ==> (r matches Ok(
            u,
        ) && same_map(u@, m)),
        all_plain_entries(*v) ==> r is Ok && r->Ok_0@.len() == v->Array_0@.len() && forall|i: int|
            0 <= i < v->Array_0@.len() ==> #[trigger] r->Ok_0@[i].1 == plain_task_read(
                v->Array_0@[i]->Object_0@[0].1,
            )->0,
    decreases v, 3int,
{
    let items = match v {
        AnyValue::Array(items) => items,
        _ => {
            return Err(wrong_type(key));
        },
    };
    let mut map: TaskMap = OrderedMap::new();
    let mut i: usize = 0;
    while i < items.len()
        invariant
            *v == AnyValue::Array(*items),
            0 <= i <= items.len(),
            map@.len() == i,
            forall|j: int| 0 <= j < i ==> #[trigger] singleton_names(items@)[j] == entry_names(map@)[j],
            all_plain_entries(*v) ==> forall|j: int| 0 <= j < i ==> #[trigger] map@[j].1 == plain_task_read(
                items@[j]->Object_0@[0].1,
            )->0,
            forall|m: Seq<(String, TaskDefinition)>| #[trigger] map_tree(items@, m) ==> same_map(
                map@,
                m.subrange(0, i as int),
            ),
        decreases items.len() - i,
    {
        let entry = match &items[i] {
            AnyValue::Object(single) => {
                if single.len() != 1 {
                    proof {
                        assert forall|m: Seq<(String, TaskDefinition)>| !#[trigger] map_tree(items@, m) by {
                            if map_tree(items@, m) {
                                lemma_map_tree_at(items@, m, i as int);
                            }
                        }
                    }
                    return Err(wrong_type(key));
                }
                proof {
                    assert(decreases_to!(*v => v->Array_0));
                    assert(decreases_to!(v->Array_0 => v->Array_0@));
                    assert(decreases_to!(v->Array_0@ => v->Array_0@[i as int]));
                    assert(decreases_to!(v->Array_0@[i as int] => v->Array_0@[i as int]->Object_0));
                    assert(decreases_to!(v->Array_0@[i as int]->Object_0 => v->Array_0@[i as int]->Object_0@));
                    assert(decreases_to!(v->Array_0@[i as int]->Object_0@ => v->Array_0@[i as int]->Object_0@[0]));
                    assert(decreases_to!(v->Array_0@[i as int]->Object_0@[0] => v->Array_0@[i as int]->Object_0@[0].1));
                }
                let task = match decode_task(&single[0].1, &single[0].0) {
                    Ok(task) => task,
                    Err(e) => {
                        proof {
                            assert forall|m: Seq<(String, TaskDefinition)>| !#[trigger] map_tree(items@, m) by {
                                if map_tree(items@, m) {
                                    lemma_map_tree_at(items@, m, i as int);
                                }
                            }
                        }
                        return Err(e);
                    },
                };
                (single[0].0.clone(), task)
            },
            _ => {
                proof {
                    assert forall|m: Seq<(String, TaskDefinition)>| !#[trigger] map_tree(items@, m) by {
                        if map_tree(items@, m) {
                            lemma_map_tree_at(items@, m, i as int);
                        }
                    }
                }
                return Err(wrong_type(key));
            },
        };
        let ghost item = items@[i as int];
        let ghost before = map@;
        map.add(entry.0, entry.1);
        i = i + 1;
        proof {
            assert forall|j: int| 0 <= j < i implies #[trigger] singleton_names(items@)[j] == entry_names(map@)[j] by {
                if j < i - 1 {
                    assert(map@[j] == before[j]);
                    assert(singleton_names(items@)[j] == entry_names(before)[j]);
                }
            }
            if all_plain_entries(*v) {
                assert forall|j: int| 0 <= j < i implies #[trigger] map@[j].1 == plain_task_read(
                    items@[j]->Object_0@[0].1,
                )->0 by {
                    if j < i - 1 {
                        assert(map@[j] == before[j]);
                    }
                }
            }
            assert forall|m: Seq<(String, TaskDefinition)>| #[trigger] map_tree(items@, m) implies same_map(
                map@,
                m.subrange(0, i as int),
            ) by {
                lemma_map_tree_at(items@, m, i - 1);
                let q = m.subrange(0, i as int);
                assert(q.drop_last() =~= m.subrange(0, i - 1));
                assert(map@.drop_last() =~= before);
                assert(q.last() == m[i - 1]);
            }
        }
    }
    proof {
        assert(singleton_names(items@) =~= entry_names(map@));
        assert forall|m: Seq<(String, TaskDefinition)>| #[trigger] map_tree(items@, m) implies same_map(map@, m) by {
            if m.len() > 0 {
                lemma_map_tree_at(items@, m, 0);
            }
            assert(m.subrange(0, i as int) =~= m);
        }
    }
    Ok(map)
}

/// The tree of the cases of a 'switch' task: an array of single-field objects, in order.
fn encode_switch_cases(m: &OrderedMap<String, SwitchCaseDefinition>) -> (r: AnyValue)
    ensures
        r is Array,
        cases_tree(r->Array_0@, m@),
{
    let mut out: Vec<AnyValue> = Vec::new();
    let mut i: usize = 0;
    while i < m.entries.len()
        invariant
            0 <= i <= m.entries.len(),
            cases_tree(out@, m@.subrange(0, i as int)),
        decreases m.entries.len() - i,
    {
        let mut single: Vec<(String, AnyValue)> = Vec::new();
        single.push((m.entries[i].0.clone(), encode_switch_case(&m.entries[i].1)));
        let ghost before = out@;
        out.push(AnyValue::Object(single));
        proof {
            let q = m@.subrange(0, i + 1);
            assert(q.drop_last() =~= m@.subrange(0, i as int));
            assert(out@.drop_last() =~= before);
            assert(q.last() == m@[i as int]);
        }
        i = i + 1;
    }
    proof {
        assert(m@.subrange(0, i as int) =~= m@);
    }
    AnyValue::Array(out)
}

/// Reads the cases of a 'switch' task, keeping their order.
fn decode_switch_cases(v: &AnyValue, key: &str) -> (r: Result<OrderedMap<String, SwitchCaseDefinition>, DecodeError>)
    ensures
        forall|m: Seq<(String, SwitchCaseDefinition)>| v is Array && #[trigger] cases_tree(v->Array_0@, m) ==> (
        r matches Ok(u) && same_cases(u@, m)),
{
    let items = match v {
        AnyValue::Array(items) => items,
        _ => {
            return Err(wrong_type(key));
        },
    };
    let mut map: OrderedMap<String, SwitchCaseDefinition> = OrderedMap::new();
    let mut i: usize = 0;
    while i < items.len()
        invariant
            *v == AnyValue::Array(*items),
            0 <= i <= items.len(),
            map@.len() == i,
            forall|m: Seq<(String, SwitchCaseDefinition)>| #[trigger] cases_tree(items@, m) ==> same_cases(
                map@,
                m.subrange(0, i as int),
            ),
        decreases items.len() - i,
    {
        match &items[i] {
            AnyValue::Object(single) => {
                if single.len() != 1 {
                    proof {
                        assert forall|m: Seq<(String, SwitchCaseDefinition)>| !#[trigger] cases_tree(items@, m) by {
                            if cases_tree(items@, m) {
                                lemma_cases_tree_at(items@, m, i as int);
                            }
                        }
                    }
                    return Err(wrong_type(key));
                }
                let case = match decode_switch_case(&single[0].1, &single[0].0) {
                    Ok(c) => c,
                    Err(e) => {
                        proof {
                            assert forall|m: Seq<(String, SwitchCaseDefinition)>| !#[trigger] cases_tree(items@, m) by {
                                if cases_tree(items@, m) {
                                    lemma_cases_tree_at(items@, m, i as int);
                                }
                            }
                        }
                        return Err(e);
                    },
                };
                let ghost before = map@;
                map.add(single[0].0.clone(), case);
                proof {
                    assert forall|m: Seq<(String, SwitchCaseDefinition)>| #[trigger] cases_tree(items@, m) implies same_cases(
                        map@,
                        m.subrange(0, i + 1),
                    ) by {
                        lemma_cases_tree_at(items@, m, i as int);
                        let q = m.subrange(0, i + 1);
                        assert(q.drop_last() =~= m.subrange(0, i as int));
                        assert(map@.drop_last() =~= before);
                        assert(q.last() == m[i as int]);
                    }
                }
            },
            _ => {
                proof {
                    assert forall|m: Seq<(String, SwitchCaseDefinition)>| !#[trigger] cases_tree(items@, m) by {
                        if cases_tree(items@, m) {
                            lemma_cases_tree_at(items@, m, i as int);
                        }
                    }
                }
                return Err(wrong_type(key));
            },
        }
        i = i + 1;
    }
    proof {
        assert forall|m: Seq<(String, SwitchCaseDefinition)>| #[trigger] cases_tree(items@, m) implies same_cases(map@, m) by {
            if m.len() > 0 {
                lemma_cases_tree_at(items@, m, 0);
            }
            assert(m.subrange(0, i as int) =~= m);
        }
    }
    Ok(map)
}

/// The tree of named tasks that are not ordered: an object from each name to its task.
fn encode_task_pairs(m: &Vec<(String, TaskDefinition)>) -> (r: AnyValue)
    decreases m,
{
    let mut out: Vec<(String, AnyValue)> = Vec::new();
    let mut i: usize = 0;
    while i < m.len()
        decreases m.len() - i,
    {
        proof {
            assert(decreases_to!(*m => m@));
            assert(decreases_to!(m@ => m@[i as int]));
            assert(decreases_to!(m@[i as int] => m@[i as int].1));
        }
        let e = encode_task(&m[i].1);
        out.push((m[i].0.clone(), e));
        i = i + 1;
    }
    AnyValue::Object(out)
}

/// Reads named tasks from an object.
fn decode_task_pairs(v: &AnyValue, key: &str) -> (r: Result<Vec<(String, TaskDefinition)>, DecodeError>)
    decreases v, 2int,
{
    match v {
        AnyValue::Object(items) => {
            let mut out: Vec<(String, TaskDefinition)> = Vec::new();
            let mut i: usize = 0;
            while i < items.len()
                invariant
                    *v == AnyValue::Object(*items),
                decreases items.len() - i,
            {
                proof {
                    assert(decreases_to!(*v => v->Object_0));
                    assert(decreases_to!(v->Object_0 => v->Object_0@));
                    assert(decreases_to!(v->Object_0@ => v->Object_0@[i as int]));
                    assert(decreases_to!(v->Object_0@[i as int] => v->Object_0@[i as int].1));
                }
                let x = decode_task(&items[i].1, &items[i].0)?;
                out.push((items[i].0.clone(), x));
                i = i + 1;
            }
            Ok(out)
        },
        _ => Err(wrong_type(key)),
    }
}

/// The first field named `k` is at `p`.
proof fn lemma_found_at(f: Seq<(String, AnyValue)>, k: Seq<char>, p: int)
    requires
        0 <= p < f.len(),
        f[p].0@ == k,
        forall|j: int| 0 <= j < p ==> #[trigger] f[j].0@ != k,
    ensures
        value_of(f, k) == Some(f[p].1),
{
    assert(first_key_at(f, k, p));
    lemma_key_index(f, k);
    lemma_first_key_unique(f, k, p, key_index(f, k));
}

/// After one more field, the fields before are kept, and a name absent before stays absent when
/// the new field has another name.
proof fn lemma_field_step(prev: Seq<(String, AnyValue)>, next: Seq<(String, AnyValue)>, key: Seq<char>, absent: Seq<char>)
    requires
        next.len() >= prev.len(),
        forall|i: int| 0 <= i < prev.len() ==> #[trigger] next[i] == prev[i],
        forall|i: int| prev.len() <= i < next.len() ==> #[trigger] next[i].0@ == key,
        key != absent,
        forall|j: int| 0 <= j < prev.len() ==> #[trigger] prev[j].0@ != absent,
    ensures
        forall|j: int| 0 <= j < next.len() ==> #[trigger] next[j].0@ != absent,
{
    assert forall|j: int| 0 <= j < next.len() implies #[trigger] next[j].0@ != absent by {
        if j < prev.len() {
            assert(next[j] == prev[j]);
        }
    }
}

/// The pairs of the tree of a workflow's metadata without tags.
pub open spec fn document_pairs(d: WorkflowDefinitionMetadata) -> Seq<(Seq<char>, AnyValue)> {
    seq![
        ("dsl"@, AnyValue::String(d.dsl)),
        ("namespace"@, AnyValue::String(d.namespace)),
        ("name"@, AnyValue::String(d.name)),
        ("version"@, AnyValue::String(d.version)),
    ] + opt_string_pairs("title"@, d.title) + opt_string_pairs("summary"@, d.summary)
}

/// What the fields of a metadata object read as when every text field is given as a string and
/// there are no tags.
pub open spec fn document_from(f: Seq<(String, AnyValue)>) -> Option<WorkflowDefinitionMetadata> {
    match (value_of(f, "dsl"@), value_of(f, "namespace"@), value_of(f, "name"@), value_of(f, "version"@)) {
        (
            Some(AnyValue::String(dsl)),
            Some(AnyValue::String(namespace)),
            Some(AnyValue::String(name)),
            Some(AnyValue::String(version)),
        ) => match (opt_string_field(f, "title"@), opt_string_field(f, "summary"@)) {
            (Ok(title), Ok(summary)) => if value_of(f, "tags"@) is None {
                Some(WorkflowDefinitionMetadata { dsl, namespace, name, version, title, summary, tags: None })
            } else {
                None
            },
            _ => None,
        },
        _ => None,
    }
}

/// The tree of a workflow's metadata.
fn encode_document(x: &WorkflowDefinitionMetadata) -> (r: AnyValue)
    ensures
        r is Object,
        x.tags is None ==> pairs(r->Object_0@) == document_pairs(*x),
{
    let mut out: Vec<(String, AnyValue)> = Vec::new();
    put(&mut out, "dsl", AnyValue::String(x.dsl.clone()));
    put(&mut out, "namespace", AnyValue::String(x.namespace.clone()));
    put(&mut out, "name", AnyValue::String(x.name.clone()));
    put(&mut out, "version", AnyValue::String(x.version.clone()));
    let ghost four = out@;
    proof {
        assert(pairs(four) =~= seq![
            ("dsl"@, AnyValue::String(x.dsl)),
            ("namespace"@, AnyValue::String(x.namespace)),
            ("name"@, AnyValue::String(x.name)),
            ("version"@, AnyValue::String(x.version)),
        ]);
    }
    put_opt_string(&mut out, "title", &x.title);
    put_opt_string(&mut out, "summary", &x.summary);
    let ghost six = out@;
    match &x.tags {
        Some(p) => put(&mut out, "tags", string_pairs_value(p)),
        None => {},
    }
    proof {
        if x.tags is None {
            assert(out@ == six);
        }
    }
    AnyValue::Object(out)
}

/// The metadata's fields read back as the metadata they were written from.
pub proof fn lemma_document_round_trip(f: Seq<(String, AnyValue)>, d: WorkflowDefinitionMetadata)
    requires
        d.tags is None,
        pairs(f) == document_pairs(d),
    ensures
        document_from(f) == Some(d),
{
    reveal_strlit("dsl");
    reveal_strlit("namespace");
    reveal_strlit("name");
    reveal_strlit("version");
    reveal_strlit("title");
    reveal_strlit("summary");
    reveal_strlit("tags");
    let a = seq![
        ("dsl"@, AnyValue::String(d.dsl)),
        ("namespace"@, AnyValue::String(d.namespace)),
        ("name"@, AnyValue::String(d.name)),
        ("version"@, AnyValue::String(d.version)),
    ];
    let b = opt_string_pairs("title"@, d.title);
    let c = opt_string_pairs("summary"@, d.summary);
    assert("dsl"@.len() == 3 && "namespace"@.len() == 9 && "name"@.len() == 4 && "version"@.len() == 7);
    assert("title"@.len() == 5 && "summary"@.len() == 7 && "tags"@.len() == 4);
    assert("version"@[0] == 'v' && "summary"@[0] == 's' && "name"@[0] == 'n' && "tags"@[0] == 't');
    lemma_lookup_opt_string("title"@, d.title);
    lemma_lookup_opt_string("summary"@, d.summary);
    reveal_with_fuel(lookup, 5);
    lemma_lookup_concat(a + b, c, "dsl"@);
    lemma_lookup_concat(a, b, "dsl"@);
    lemma_lookup_concat(a + b, c, "namespace"@);
    lemma_lookup_concat(a, b, "namespace"@);
    lemma_lookup_concat(a + b, c, "name"@);
    lemma_lookup_concat(a, b, "name"@);
    lemma_lookup_concat(a + b, c, "version"@);
    lemma_lookup_concat(a, b, "version"@);
    lemma_lookup_concat(a + b, c, "title"@);
    lemma_lookup_concat(a, b, "title"@);
    lemma_lookup_concat(a + b, c, "summary"@);
    lemma_lookup_concat(a, b, "summary"@);
    lemma_lookup_concat(a + b, c, "tags"@);
    lemma_lookup_concat(a, b, "tags"@);
    lemma_value_of_lookup(f, "dsl"@);
    lemma_value_of_lookup(f, "namespace"@);
    lemma_value_of_lookup(f, "name"@);
    lemma_value_of_lookup(f, "version"@);
    lemma_value_of_lookup(f, "title"@);
    lemma_value_of_lookup(f, "summary"@);
    lemma_value_of_lookup(f, "tags"@);
}

/// Looking a key up in the pairs of one optional text field.
proof fn lemma_lookup_opt_string(key: Seq<char>, o: Option<String>)
    ensures
        forall|k: Seq<char>| #[trigger] lookup(opt_string_pairs(key, o), k) == if k == key && o is Some {
            Some(AnyValue::String(o->0))
        } else {
            None::<AnyValue>
        },
{
    reveal_with_fuel(lookup, 2);
}

/// A workflow whose fields are only its metadata (without tags), its timeout and its tasks.
pub open spec fn bare_workflow(w: WorkflowDefinition) -> bool {
    &&& w.document.tags is None
    &&& w.input is None && w.use_ is None && w.output is None
    &&& w.schedule is None && w.evaluate is None && w.metadata is None
}

/// The items of a workflow tree's `do` array.
pub open spec fn workflow_tasks(v: AnyValue) -> Seq<AnyValue> {
    value_of(fields_of(v), "do"@)->0->Array_0@
}

/// A workflow tree whose fields other than its tasks read without error: an object with
/// metadata whose text fields are all strings and that has no tags; no input, use, output,
/// schedule, evaluate or metadata field; a timeout that reads, if any; and a `do` array.
pub open spec fn workflow_base_ok(v: AnyValue) -> bool {
    &&& v is Object
    &&& value_of(fields_of(v), "document"@) is Some
    &&& document_from(fields_of(value_of(fields_of(v), "document"@)->0)) is Some
    &&& !has_key(fields_of(v), "input"@) && !has_key(fields_of(v), "use"@)
    &&& !has_key(fields_of(v), "output"@) && !has_key(fields_of(v), "schedule"@)
    &&& !has_key(fields_of(v), "evaluate"@) && !has_key(fields_of(v), "metadata"@)
    &&& match value_of(fields_of(v), "timeout"@) {
        Some(x) => timeout_or_reference_from(x) is Ok,
        None => true,
    }
    &&& value_of(fields_of(v), "do"@) is Some
    &&& value_of(fields_of(v), "do"@)->0 is Array
}

/// A workflow whose fields are only its metadata (without tags), its timeout and its tasks, all
/// of them plain.
pub open spec fn is_plain_workflow(w: WorkflowDefinition) -> bool {
    &&& w.document.tags is None
    &&& w.input is None && w.use_ is None && w.output is None
    &&& w.schedule is None && w.evaluate is None && w.metadata is None
    &&& forall|i: int| 0 <= i < w.do_@.len() ==> is_plain(#[trigger] w.do_@[i].1)
}

/// `r` is the tree of a plain workflow `x`: its `document` field holds the pairs of the metadata,
/// and it has none of the fields that `x` leaves out.
pub open spec fn plain_workflow_tree(r: AnyValue, x: WorkflowDefinition) -> bool {
    &&& value_of(fields_of(r), "document"@) is Some
    &&& value_of(fields_of(r), "document"@)->0 is Object
    &&& pairs(value_of(fields_of(r), "document"@)->0->Object_0@) == document_pairs(x.document)
    &&& !has_key(fields_of(r), "input"@) && !has_key(fields_of(r), "use"@)
    &&& !has_key(fields_of(r), "output"@) && !has_key(fields_of(r), "schedule"@)
    &&& !has_key(fields_of(r), "evaluate"@) && !has_key(fields_of(r), "metadata"@)
}

/// A workflow tree that reads without error: an object with metadata whose text fields are all
/// strings and that has no tags; no input, use, output, schedule, evaluate or metadata field; a
/// timeout that reads, if any; and a `do` array of plain tasks.
pub open spec fn workflow_ok(v: AnyValue) -> bool {
    &&& v is Object
    &&& value_of(fields_of(v), "document"@) is Some
    &&& document_from(fields_of(value_of(fields_of(v), "document"@)->0)) is Some
    &&& !has_key(fields_of(v), "input"@) && !has_key(fields_of(v), "use"@)
    &&& !has_key(fields_of(v), "output"@) && !has_key(fields_of(v), "schedule"@)
    &&& !has_key(fields_of(v), "evaluate"@) && !has_key(fields_of(v), "metadata"@)
    &&& match value_of(fields_of(v), "timeout"@) {
        Some(x) => timeout_or_reference_from(x) is Ok,
        None => true,
    }
    &&& value_of(fields_of(v), "do"@) is Some
    &&& all_plain_entries(value_of(fields_of(v), "do"@)->0)
}

/// `r` is the tree of the workflow `x` as far as its tasks and timeout go: an object whose `do`
/// field is an array with one single-field object per task, in order and under the task's
/// name, holding the plain tree of each plain task; and whose `timeout` field holds the tree of
/// the timeout, or is absent when there is none.
pub open spec fn workflow_tree(r: AnyValue, x: WorkflowDefinition) -> bool {
    &&& r is Object
    &&& value_of(fields_of(r), "do"@) is Some
    &&& {
        let d = value_of(fields_of(r), "do"@)->0;
        &&& d is Array
        &&& singleton_names(d->Array_0@) == entry_names(x.do_@)
        &&& d->Array_0@.len() == x.do_@.len()
        &&& forall|i: int| 0 <= i < x.do_@.len() ==> (#[trigger] d->Array_0@[i]) is Object
            && d->Array_0@[i]->Object_0@.len() == 1
        &&& forall|i: int| 0 <= i < x.do_@.len() && is_plain(#[trigger] x.do_@[i].1) ==> plain_task_read(
            d->Array_0@[i]->Object_0@[0].1,
        ) == Some(x.do_@[i].1)
        &&& simple_map(x.do_@) ==> map_tree(d->Array_0@, x.do_@)
    }
    &&& match x.timeout {
        Some(t) => value_of(fields_of(r), "timeout"@) matches Some(tv) && timeout_or_reference_tree(tv, t),
        None => value_of(fields_of(r), "timeout"@) is None,
    }
}

/// The workflow `w` was read from `v`, as far as its tasks and timeout go: its tasks are named
/// as the items of the `do` array, in order, and a plain item reads as its task; its timeout is
/// what the `timeout` field reads as, or none when the field is absent.
pub open spec fn workflow_read(v: AnyValue, w: WorkflowDefinition) -> bool {
    &&& value_of(fields_of(v), "do"@) is Some
    &&& {
        let d = value_of(fields_of(v), "do"@)->0;
        &&& d is Array
        &&& singleton_names(d->Array_0@) == entry_names(w.do_@)
        &&& all_plain_entries(d) ==> w.do_@.len() == d->Array_0@.len() && forall|i: int|
            0 <= i < d->Array_0@.len() ==> #[trigger] w.do_@[i].1 == plain_task_read(
                d->Array_0@[i]->Object_0@[0].1,
            )->0
    }
    &&& match value_of(fields_of(v), "timeout"@) {
        Some(x) => w.timeout is Some && timeout_or_reference_from(x)
            == Ok::<OneOfTimeoutDefinitionOrReference, ()>(w.timeout->0),
        None => w.timeout is None,
    }
}

/// The tree of a workflow: its fields, each under its key, with the tasks in order under `do`.
fn encode_workflow(x: &WorkflowDefinition) -> (r: AnyValue)
    ensures
        workflow_tree(r, *x),
        bare_workflow(*x) ==> plain_workflow_tree(r, *x),
    decreases x,
{
    proof {
        lemma_key_texts();
    }
    let mut out: Vec<(String, AnyValue)> = Vec::new();
    put(&mut out, "document", encode_document(&x.document));
    let ghost s1 = out@;
    match &x.input {
        Some(s) => put(&mut out, "input", encode_input_data_model(s)),
        None => {},
    }
    let ghost s2 = out@;
    match &x.use_ {
        Some(s) => put(&mut out, "use", encode_components(s)),
        None => {},
    }
    let ghost s3 = out@;
    proof {
        assert(forall|j: int| 0 <= j < s3.len() ==> #[trigger] s3[j].0@ != "timeout"@);
        assert(forall|j: int| 0 <= j < s3.len() ==> #[trigger] s3[j].0@ != "do"@);
    }
    match &x.timeout {
        Some(t) => put(&mut out, "timeout", encode_timeout_or_reference(t)),
        None => {},
    }
    let ghost s4 = out@;
    let ghost pt = s3.len() as int;
    proof {
        lemma_field_step(s3, s4, "timeout"@, "do"@);
    }
    match &x.output {
        Some(s) => put(&mut out, "output", encode_output_data_model(s)),
        None => {},
    }
    let ghost s5 = out@;
    proof {
        lemma_field_step(s4, s5, "output"@, "do"@);
    }
    match &x.schedule {
        Some(s) => put(&mut out, "schedule", encode_schedule(s)),
        None => {},
    }
    let ghost s6 = out@;
    proof {
        lemma_field_step(s5, s6, "schedule"@, "do"@);
    }
    match &x.evaluate {
        Some(s) => put(&mut out, "evaluate", encode_evaluate(s)),
        None => {},
    }
    let ghost s7 = out@;
    proof {
        lemma_field_step(s6, s7, "evaluate"@, "do"@);
    }
    let tasks = encode_task_map(&x.do_);
    put(&mut out, "do", tasks);
    let ghost s8 = out@;
    let ghost pd = s7.len() as int;
    match &x.metadata {
        Some(p) => put(&mut out, "metadata", value_pairs_value(p)),
        None => {},
    }
    proof {
        assert(out@[pd] == s8[pd]);
        assert forall|j: int| 0 <= j < pd implies #[trigger] out@[j].0@ != "do"@ by {
            assert(out@[j] == s8[j]);
            assert(s8[j] == s7[j]);
        }
        lemma_found_at(out@, "do"@, pd);
        assert(forall|j: int| 0 <= j < s3.len() ==> #[trigger] out@[j] == s3[j]) by {
            assert forall|j: int| 0 <= j < s3.len() implies #[trigger] out@[j] == s3[j] by {
                assert(out@[j] == s8[j]);
                assert(s8[j] == s7[j]);
                assert(s7[j] == s6[j]);
                assert(s6[j] == s5[j]);
                assert(s5[j] == s4[j]);
                assert(s4[j] == s3[j]);
            }
        }
        if x.timeout is Some {
            assert(out@[pt] == s4[pt]) by {
                assert(out@[pt] == s8[pt]);
                assert(s8[pt] == s7[pt]);
                assert(s7[pt] == s6[pt]);
                assert(s6[pt] == s5[pt]);
                assert(s5[pt] == s4[pt]);
            }
            lemma_found_at(out@, "timeout"@, pt);
        } else {
            assert(s4 == s3);
            lemma_field_step(s4, s5, "output"@, "timeout"@);
            lemma_field_step(s5, s6, "schedule"@, "timeout"@);
            lemma_field_step(s6, s7, "evaluate"@, "timeout"@);
            lemma_field_step(s7, s8, "do"@, "timeout"@);
            lemma_field_step(s8, out@, "metadata"@, "timeout"@);
            assert(!has_key(out@, "timeout"@));
        }
        assert(first_key_at(out@, "document"@, 0)) by {
            assert(out@[0] == s1[0]);
        }
        lemma_found_at(out@, "document"@, 0);
        if bare_workflow(*x) {
            assert forall|j: int| 0 <= j < out@.len() implies (#[trigger] out@[j].0@ == "document"@
                || out@[j].0@ == "timeout"@ || out@[j].0@ == "do"@) by {
                if j == 0 {
                    assert(out@[0] == s1[0]);
                } else if j < s4.len() {
                    assert(out@[j] == s4[j]) by {
                        assert(out@[j] == s8[j]);
                        assert(s8[j] == s7[j]);
                    }
                } else {
                    assert(j == pd);
                }
            }
            assert(!has_key(out@, "input"@));
            assert(!has_key(out@, "use"@));
            assert(!has_key(out@, "output"@));
            assert(!has_key(out@, "schedule"@));
            assert(!has_key(out@, "evaluate"@));
            assert(!has_key(out@, "metadata"@));
        }
    }
    AnyValue::Object(out)
}

/// Writes a task to its tree and reads it back. A call, 'set' or wait task, or a 'do' or 'for'
/// task over such tasks, whose common fields are at most a condition, a timeout and what to do
/// next (see `simple_task`), comes back as the same task.
pub fn reread_task(t: &TaskDefinition) -> (r: Result<TaskDefinition, DecodeError>)
    ensures
        simple_task(*t) ==> (r matches Ok(u) && same_task(u, *t)),
        is_plain(*t) ==> r == Ok::<TaskDefinition, DecodeError>(*t),
{
    let tree = encode_task(t);
    decode_task(&tree, "task")
}

/// The tree of a workflow document.
pub fn encode_workflow_definition(w: &WorkflowDefinition) -> (r: AnyValue)
    ensures
        r is Object,
        workflow_tree(r, *w),
        bare_workflow(*w) ==> plain_workflow_tree(r, *w),
{
    encode_workflow(w)
}

/// Reads a workflow document from its tree. The tasks keep the order of the `do` array.
pub fn decode_workflow_definition(v: &AnyValue) -> (r: Result<WorkflowDefinition, DecodeError>)
    ensures
        !(v is Object) ==> r is Err,
        r matches Ok(w) ==> value_of(fields_of(*v), "do"@) matches Some(d) && d is Array
            && singleton_names(d->Array_0@) == entry_names(w.do_@),
        r matches Ok(w) ==> workflow_read(*v, w),
        workflow_ok(*v) ==> r is Ok && r->Ok_0.document == document_from(
            fields_of(value_of(fields_of(*v), "document"@)->0),
        )->0 && r->Ok_0.input is None && r->Ok_0.use_ is None && r->Ok_0.output is None
            && r->Ok_0.schedule is None && r->Ok_0.evaluate is None && r->Ok_0.metadata is None,
        forall|m: Seq<(String, TaskDefinition)>| #[trigger] map_tree(workflow_tasks(*v), m) ==> (workflow_base_ok(*v)
            ==> (r matches Ok(w) && same_map(w.do_@, m) && w.document == document_from(
            fields_of(value_of(fields_of(*v), "document"@)->0),
        )->0 && w.input is None && w.use_ is None && w.output is None && w.schedule is None
            && w.evaluate is None && w.metadata is None)),
{
    decode_workflow(v, "document")
}

/// Writes a workflow to its tree and reads it back. A workflow whose fields are only its
/// metadata (without tags), its timeout and tasks whose trees are stated (see `task_tree`)
/// comes back with the same metadata, timeout and absent fields, and the same tasks in order.
pub fn reread_workflow(w: &WorkflowDefinition) -> (r: Result<WorkflowDefinition, DecodeError>)
    ensures
        bare_workflow(*w) && simple_map(w.do_@) ==> (r matches Ok(u) && u.document == w.document
            && u.timeout == w.timeout && u.input == w.input && u.use_ == w.use_ && u.output == w.output
            && u.schedule == w.schedule && u.evaluate == w.evaluate && u.metadata == w.metadata
            && same_map(u.do_@, w.do_@)),
{
    let tree = encode_workflow_definition(w);
    proof {
        if bare_workflow(*w) && simple_map(w.do_@) {
            let doc = value_of(fields_of(tree), "document"@)->0;
            lemma_document_round_trip(doc->Object_0@, w.document);
            if w.timeout is Some {
                law_timeout_round_trip(value_of(fields_of(tree), "timeout"@)->0, w.timeout->0);
            }
            assert(workflow_base_ok(tree));
            assert(map_tree(workflow_tasks(tree), w.do_@));
        }
    }
    let r = decode_workflow_definition(&tree);
    proof {
        if bare_workflow(*w) && simple_map(w.do_@) {
            if w.timeout is Some {
                law_timeout_round_trip(value_of(fields_of(tree), "timeout"@)->0, w.timeout->0);
            }
        }
    }
    r
}

} // verus!
