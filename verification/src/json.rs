//! A plain representation of JSON documents, and the strict field-access
//! helpers that the section decoders are built on.
//!
//! A document is an owned [`JsonValue`] tree. Numbers carry both the exact
//! integer value (when the literal was integral) and the IEEE-754 bit
//! pattern of the closest double, so that integer fields can be decoded
//! exactly while fractional fields keep full precision without the library
//! itself doing floating-point arithmetic.

use vstd::prelude::*;
use crate::strutil::str_eq;

verus! {

/// A JSON number. `int_val` is `Some(i)` exactly when the source literal
/// was an integer representable as `i64`; `bits` always holds the IEEE-754
/// bit pattern of the number read as a double.
#[derive(Debug, Clone, Copy, PartialEq, Eq, Structural)]
pub struct JsonNumber {
    pub int_val: Option<i64>,
    pub bits: u64,
}

/// An owned JSON document. Object members keep their source order.
#[derive(Debug, PartialEq)]
pub enum JsonValue {
    Null,
    Bool(bool),
    Num(JsonNumber),
    Str(String),
    Arr(Vec<JsonValue>),
    Obj(Vec<(String, JsonValue)>),
}

/// Decoding failure, as the contracts speak of it: field names and literals
/// appear as character sequences.
pub enum DecodeErrView {
    /// An unexpected, missing or ill-typed field; carries the field name.
    SchemaMismatch(Seq<char>),
    /// The events wrapper did not have exactly one key.
    MalformedEventEnvelope,
    /// A string-encoded boolean was neither `"True"` nor `"False"`;
    /// carries the offending literal.
    InvalidBoolEncoding(Seq<char>),
    /// A token stood where a dragon kind was required but matched no
    /// accepted spelling; carries the token.
    DragonDecodeFailure(Seq<char>),
}

/// Decoding failure as the callers receive it.
#[derive(Debug, Clone, PartialEq)]
pub enum DecodeError {
    SchemaMismatch(String),
    MalformedEventEnvelope,
    InvalidBoolEncoding(String),
    DragonDecodeFailure(String),
}

impl View for DecodeError {
    type V = DecodeErrView;

    open spec fn view(&self) -> DecodeErrView {
        match self {
            DecodeError::SchemaMismatch(s) => DecodeErrView::SchemaMismatch(s@),
            DecodeError::MalformedEventEnvelope => DecodeErrView::MalformedEventEnvelope,
            DecodeError::InvalidBoolEncoding(s) => DecodeErrView::InvalidBoolEncoding(s@),
            DecodeError::DragonDecodeFailure(s) => DecodeErrView::DragonDecodeFailure(s@),
        }
    }
}

/// A decode result with the error abstracted to its view, so that exec
/// results can be compared against the specification mirrors.
pub open spec fn decoded<T>(r: Result<T, DecodeError>) -> Result<T, DecodeErrView> {
    match r {
        Ok(t) => Ok(t),
        Err(e) => Err(e@),
    }
}

/// The value of the first member named `k`, if any.
pub open spec fn spec_lookup(fs: Seq<(String, JsonValue)>, k: Seq<char>) -> Option<JsonValue>
    decreases fs.len(),
{
    if fs.len() <= 0 {
        None
    } else if fs[0].0@ == k {
        Some(fs[0].1)
    } else {
        spec_lookup(fs.skip(1), k)
    }
}

/// The names in an allow-list, as character sequences.
pub open spec fn key_views(a: Seq<&str>) -> Seq<Seq<char>> {
    a.map_values(|s: &str| s@)
}

/// The first member whose name is not in `allowed`, if any.
pub open spec fn spec_unknown_key(
    fs: Seq<(String, JsonValue)>,
    allowed: Seq<Seq<char>>,
) -> Option<String>
    decreases fs.len(),
{
    if fs.len() <= 0 {
        None
    } else if !allowed.contains(fs[0].0@) {
        Some(fs[0].0)
    } else {
        spec_unknown_key(fs.skip(1), allowed)
    }
}

/// Specification of a required `i64` field.
pub open spec fn sp_i64(fs: Seq<(String, JsonValue)>, k: Seq<char>) -> Result<i64, DecodeErrView> {
    match spec_lookup(fs, k) {
        Some(v) => match v {
            JsonValue::Num(n) => match n.int_val {
                Some(i) => Ok(i),
                None => Err(DecodeErrView::SchemaMismatch(k)),
            },
            _ => Err(DecodeErrView::SchemaMismatch(k)),
        },
        None => Err(DecodeErrView::SchemaMismatch(k)),
    }
}

/// Specification of a required `i32` field.
pub open spec fn sp_i32(fs: Seq<(String, JsonValue)>, k: Seq<char>) -> Result<i32, DecodeErrView> {
    match sp_i64(fs, k) {
        Ok(i) => if i32::MIN <= i <= i32::MAX {
            Ok(i as i32)
        } else {
            Err(DecodeErrView::SchemaMismatch(k))
        },
        Err(e) => Err(e),
    }
}

/// Specification of a required `u32` field.
pub open spec fn sp_u32(fs: Seq<(String, JsonValue)>, k: Seq<char>) -> Result<u32, DecodeErrView> {
    match sp_i64(fs, k) {
        Ok(i) => if 0 <= i <= u32::MAX {
            Ok(i as u32)
        } else {
            Err(DecodeErrView::SchemaMismatch(k))
        },
        Err(e) => Err(e),
    }
}

/// Specification of a required numeric field kept as its bit pattern.
pub open spec fn sp_bits(fs: Seq<(String, JsonValue)>, k: Seq<char>) -> Result<u64, DecodeErrView> {
    match spec_lookup(fs, k) {
        Some(v) => match v {
            JsonValue::Num(n) => Ok(n.bits),
            _ => Err(DecodeErrView::SchemaMismatch(k)),
        },
        None => Err(DecodeErrView::SchemaMismatch(k)),
    }
}

/// Specification of a required string field.
pub open spec fn sp_string(fs: Seq<(String, JsonValue)>, k: Seq<char>) -> Result<
    String,
    DecodeErrView,
> {
    match spec_lookup(fs, k) {
        Some(v) => match v {
            JsonValue::Str(s) => Ok(s),
            _ => Err(DecodeErrView::SchemaMismatch(k)),
        },
        None => Err(DecodeErrView::SchemaMismatch(k)),
    }
}

/// Specification of an optional string field: absent or `null` is `None`.
pub open spec fn sp_opt_string(fs: Seq<(String, JsonValue)>, k: Seq<char>) -> Result<
    Option<String>,
    DecodeErrView,
> {
    match spec_lookup(fs, k) {
        Some(v) => match v {
            JsonValue::Str(s) => Ok(Some(s)),
            JsonValue::Null => Ok(None),
            _ => Err(DecodeErrView::SchemaMismatch(k)),
        },
        None => Ok(None),
    }
}

/// Specification of a required JSON boolean field.
pub open spec fn sp_bool(fs: Seq<(String, JsonValue)>, k: Seq<char>) -> Result<
    bool,
    DecodeErrView,
> {
    match spec_lookup(fs, k) {
        Some(v) => match v {
            JsonValue::Bool(b) => Ok(b),
            _ => Err(DecodeErrView::SchemaMismatch(k)),
        },
        None => Err(DecodeErrView::SchemaMismatch(k)),
    }
}

/// What a string-encoded boolean literal decodes to.
pub open spec fn sp_bool_of_literal(s: Seq<char>) -> Result<bool, DecodeErrView> {
    if s == "True"@ {
        Ok(true)
    } else if s == "False"@ {
        Ok(false)
    } else {
        Err(DecodeErrView::InvalidBoolEncoding(s))
    }
}

/// Specification of a boolean field serialized as the literal strings
/// `"True"` / `"False"`.
pub open spec fn sp_bool_lit(fs: Seq<(String, JsonValue)>, k: Seq<char>) -> Result<
    bool,
    DecodeErrView,
> {
    match spec_lookup(fs, k) {
        Some(v) => match v {
            JsonValue::Str(s) => sp_bool_of_literal(s@),
            _ => Err(DecodeErrView::SchemaMismatch(k)),
        },
        None => Err(DecodeErrView::SchemaMismatch(k)),
    }
}

/// Specification of a required array field.
pub open spec fn sp_arr(fs: Seq<(String, JsonValue)>, k: Seq<char>) -> Result<
    Vec<JsonValue>,
    DecodeErrView,
> {
    match spec_lookup(fs, k) {
        Some(v) => match v {
            JsonValue::Arr(a) => Ok(a),
            _ => Err(DecodeErrView::SchemaMismatch(k)),
        },
        None => Err(DecodeErrView::SchemaMismatch(k)),
    }
}

/// Specification of a required object field.
pub open spec fn sp_obj(fs: Seq<(String, JsonValue)>, k: Seq<char>) -> Result<
    Vec<(String, JsonValue)>,
    DecodeErrView,
> {
    match spec_lookup(fs, k) {
        Some(v) => match v {
            JsonValue::Obj(o) => Ok(o),
            _ => Err(DecodeErrView::SchemaMismatch(k)),
        },
        None => Err(DecodeErrView::SchemaMismatch(k)),
    }
}

/// The value of a field that may stand under either of two names.
/// Both names present at once is a mismatch on the primary name.
pub open spec fn sp_alias(
    fs: Seq<(String, JsonValue)>,
    k1: Seq<char>,
    k2: Seq<char>,
) -> Result<Option<JsonValue>, DecodeErrView> {
    if spec_lookup(fs, k1) is Some && spec_lookup(fs, k2) is Some {
        Err(DecodeErrView::SchemaMismatch(k1))
    } else if spec_lookup(fs, k1) is Some {
        Ok(spec_lookup(fs, k1))
    } else {
        Ok(spec_lookup(fs, k2))
    }
}

/// Specification of a required `i32` field with an accepted alias name.
pub open spec fn sp_i32_alias(
    fs: Seq<(String, JsonValue)>,
    k1: Seq<char>,
    k2: Seq<char>,
) -> Result<i32, DecodeErrView> {
    match sp_alias(fs, k1, k2) {
        Err(e) => Err(e),
        Ok(opt) => match opt {
            Some(v) => match v {
                JsonValue::Num(n) => match n.int_val {
                    Some(i) => if i32::MIN <= i <= i32::MAX {
                        Ok(i as i32)
                    } else {
                        Err(DecodeErrView::SchemaMismatch(k1))
                    },
                    None => Err(DecodeErrView::SchemaMismatch(k1)),
                },
                _ => Err(DecodeErrView::SchemaMismatch(k1)),
            },
            None => Err(DecodeErrView::SchemaMismatch(k1)),
        },
    }
}

/// Specification of a required object field with an accepted alias name.
pub open spec fn sp_obj_alias(
    fs: Seq<(String, JsonValue)>,
    k1: Seq<char>,
    k2: Seq<char>,
) -> Result<Vec<(String, JsonValue)>, DecodeErrView> {
    match sp_alias(fs, k1, k2) {
        Err(e) => Err(e),
        Ok(opt) => match opt {
            Some(v) => match v {
                JsonValue::Obj(o) => Ok(o),
                _ => Err(DecodeErrView::SchemaMismatch(k1)),
            },
            None => Err(DecodeErrView::SchemaMismatch(k1)),
        },
    }
}

/// Element-wise decoding of an array: the first failing element fails the
/// whole array, and the successes keep their order.
pub open spec fn sp_seq_of<T>(
    a: Seq<JsonValue>,
    f: spec_fn(JsonValue) -> Result<T, DecodeErrView>,
) -> Result<Seq<T>, DecodeErrView>
    decreases a.len(),
{
    if a.len() <= 0 {
        Ok(Seq::empty())
    } else {
        match f(a[0]) {
            Err(e) => Err(e),
            Ok(t) => match sp_seq_of(a.skip(1), f) {
                Err(e) => Err(e),
                Ok(rest) => Ok(seq![t] + rest),
            },
        }
    }
}

/// When every element decodes, the array decodes to the elements in order.
pub proof fn lemma_seq_of_ok<T>(
    a: Seq<JsonValue>,
    f: spec_fn(JsonValue) -> Result<T, DecodeErrView>,
    vs: Seq<T>,
)
    requires
        vs.len() == a.len(),
        forall|j: int| 0 <= j < a.len() ==> f(a[j]) == Ok::<T, DecodeErrView>(vs[j]),
    ensures
        sp_seq_of(a, f) == Ok::<Seq<T>, DecodeErrView>(vs),
    decreases a.len(),
{
    if a.len() > 0 {
        lemma_seq_of_ok(a.skip(1), f, vs.skip(1));
        assert(seq![vs[0]] + vs.skip(1) =~= vs);
    } else {
        assert(vs =~= Seq::<T>::empty());
    }
}

/// When some element fails and all before it decode, the array fails with
/// that element's error.
pub proof fn lemma_seq_of_err<T>(
    a: Seq<JsonValue>,
    f: spec_fn(JsonValue) -> Result<T, DecodeErrView>,
    i: int,
    e: DecodeErrView,
)
    requires
        0 <= i < a.len(),
        forall|j: int| 0 <= j < i ==> f(a[j]) is Ok,
        f(a[i]) == Err::<T, DecodeErrView>(e),
    ensures
        sp_seq_of(a, f) == Err::<Seq<T>, DecodeErrView>(e),
    decreases i,
{
    if i > 0 {
        lemma_seq_of_err(a.skip(1), f, i - 1, e);
    }
}

/// How a single array element decodes as a string.
pub open spec fn sp_str_elem(k: Seq<char>) -> spec_fn(JsonValue) -> Result<String, DecodeErrView> {
    |v: JsonValue|
        match v {
            JsonValue::Str(s) => Ok(s),
            _ => Err(DecodeErrView::SchemaMismatch(k)),
        }
}

/// Specification of a required array-of-strings field.
pub open spec fn sp_string_vec(fs: Seq<(String, JsonValue)>, k: Seq<char>) -> Result<
    Seq<String>,
    DecodeErrView,
> {
    match sp_arr(fs, k) {
        Ok(a) => sp_seq_of(a@, sp_str_elem(k)),
        Err(e) => Err(e),
    }
}

/// Find a member by name; the reference points into `fields`.
pub fn obj_get<'a>(fields: &'a Vec<(String, JsonValue)>, k: &str) -> (r: Option<&'a JsonValue>)
    ensures
        match r {
            Some(v) => spec_lookup(fields@, k@) == Some(*v),
            None => spec_lookup(fields@, k@) is None,
        },
{
    proof {
        assert(fields@.skip(0) =~= fields@);
    }
    let mut i: usize = 0;
    while i < fields.len()
        invariant
            0 <= i <= fields@.len(),
            spec_lookup(fields@, k@) == spec_lookup(fields@.skip(i as int), k@),
        decreases fields@.len() - i,
    {
        proof {
            assert(fields@.skip(i as int)[0] == fields@[i as int]);
        }
        if str_eq(fields[i].0.as_str(), k) {
            return Some(&fields[i].1);
        }
        proof {
            assert(fields@.skip(i as int).skip(1) =~= fields@.skip(i as int + 1));
        }
        i += 1;
    }
    None
}

/// Report the first member whose name is not in `allowed`.
pub fn check_keys(fields: &Vec<(String, JsonValue)>, allowed: &[&str]) -> (r: Option<String>)
    ensures
        r == spec_unknown_key(fields@, key_views(allowed@)),
{
    proof {
        assert(forall|m: int|
            0 <= m < allowed@.len() ==> #[trigger] key_views(allowed@)[m] == allowed@[m]@);
        assert(fields@.skip(0) =~= fields@);
    }
    let mut i: usize = 0;
    while i < fields.len()
        invariant
            0 <= i <= fields@.len(),
            spec_unknown_key(fields@, key_views(allowed@)) == spec_unknown_key(
                fields@.skip(i as int),
                key_views(allowed@),
            ),
            forall|m: int|
                0 <= m < allowed@.len() ==> #[trigger] key_views(allowed@)[m] == allowed@[m]@,
        decreases fields@.len() - i,
    {
        proof {
            assert(fields@.skip(i as int)[0] == fields@[i as int]);
        }
        let mut j: usize = 0;
        let mut found = false;
        while j < allowed.len()
            invariant
                0 <= j <= allowed@.len(),
                i < fields@.len(),
                found ==> key_views(allowed@).contains(fields@[i as int].0@),
                !found ==> forall|m: int| 0 <= m < j ==> allowed@[m]@ != fields@[i as int].0@,
                forall|m: int|
                    0 <= m < allowed@.len() ==> #[trigger] key_views(allowed@)[m] == allowed@[m]@,
            decreases allowed@.len() - j,
        {
            if !found && str_eq(fields[i].0.as_str(), allowed[j]) {
                found = true;
                proof {
                    assert(key_views(allowed@)[j as int] == fields@[i as int].0@);
                }
            }
            j += 1;
        }
        if !found {
            proof {
                assert(forall|m: int|
                    0 <= m < key_views(allowed@).len()
                        ==> key_views(allowed@)[m] != fields@[i as int].0@);
                assert(!key_views(allowed@).contains(fields@[i as int].0@));
            }
            return Some(fields[i].0.clone());
        }
        proof {
            assert(fields@.skip(i as int).skip(1) =~= fields@.skip(i as int + 1));
        }
        i += 1;
    }
    None
}

/// A `SchemaMismatch` naming the field `k`.
pub fn mismatch_for(k: &str) -> (r: DecodeError)
    ensures
        r@ == DecodeErrView::SchemaMismatch(k@),
{
    DecodeError::SchemaMismatch(k.to_owned())
}

/// Decode a required `i64` field.
pub fn get_i64(fields: &Vec<(String, JsonValue)>, k: &str) -> (r: Result<i64, DecodeError>)
    ensures
        decoded(r) == sp_i64(fields@, k@),
{
    match obj_get(fields, k) {
        Some(JsonValue::Num(n)) => match n.int_val {
            Some(i) => Ok(i),
            None => Err(mismatch_for(k)),
        },
        _ => Err(mismatch_for(k)),
    }
}

/// Decode a required `i32` field.
pub fn get_i32(fields: &Vec<(String, JsonValue)>, k: &str) -> (r: Result<i32, DecodeError>)
    ensures
        decoded(r) == sp_i32(fields@, k@),
{
    match get_i64(fields, k) {
        Ok(i) => if i32::MIN as i64 <= i && i <= i32::MAX as i64 {
            Ok(i as i32)
        } else {
            Err(mismatch_for(k))
        },
        Err(e) => Err(e),
    }
}

/// Decode a required `u32` field.
pub fn get_u32(fields: &Vec<(String, JsonValue)>, k: &str) -> (r: Result<u32, DecodeError>)
    ensures
        decoded(r) == sp_u32(fields@, k@),
{
    match get_i64(fields, k) {
        Ok(i) => if 0 <= i && i <= u32::MAX as i64 {
            Ok(i as u32)
        } else {
            Err(mismatch_for(k))
        },
        Err(e) => Err(e),
    }
}

/// Decode a required numeric field to its IEEE-754 bit pattern.
pub fn get_bits(fields: &Vec<(String, JsonValue)>, k: &str) -> (r: Result<u64, DecodeError>)
    ensures
        decoded(r) == sp_bits(fields@, k@),
{
    match obj_get(fields, k) {
        Some(JsonValue::Num(n)) => Ok(n.bits),
        _ => Err(mismatch_for(k)),
    }
}

/// Decode a required string field.
pub fn get_string(fields: &Vec<(String, JsonValue)>, k: &str) -> (r: Result<String, DecodeError>)
    ensures
        decoded(r) == sp_string(fields@, k@),
{
    match obj_get(fields, k) {
        Some(JsonValue::Str(s)) => Ok(s.clone()),
        _ => Err(mismatch_for(k)),
    }
}

/// Decode an optional string field: absent or `null` is `None`.
pub fn get_opt_string(fields: &Vec<(String, JsonValue)>, k: &str) -> (r: Result<
    Option<String>,
    DecodeError,
>)
    ensures
        decoded(r) == sp_opt_string(fields@, k@),
{
    match obj_get(fields, k) {
        Some(JsonValue::Str(s)) => Ok(Some(s.clone())),
        Some(JsonValue::Null) => Ok(None),
        None => Ok(None),
        _ => Err(mismatch_for(k)),
    }
}

/// Decode a required JSON boolean field.
pub fn get_bool(fields: &Vec<(String, JsonValue)>, k: &str) -> (r: Result<bool, DecodeError>)
    ensures
        decoded(r) == sp_bool(fields@, k@),
{
    match obj_get(fields, k) {
        Some(JsonValue::Bool(b)) => Ok(*b),
        _ => Err(mismatch_for(k)),
    }
}

/// Decode a boolean serialized as the literal `"True"` or `"False"`.
/// Any other literal fails with `InvalidBoolEncoding`.
pub fn get_bool_lit(fields: &Vec<(String, JsonValue)>, k: &str) -> (r: Result<bool, DecodeError>)
    ensures
        decoded(r) == sp_bool_lit(fields@, k@),
{
    match obj_get(fields, k) {
        Some(JsonValue::Str(s)) => {
            if str_eq(s.as_str(), "True") {
                Ok(true)
            } else if str_eq(s.as_str(), "False") {
                Ok(false)
            } else {
                Err(DecodeError::InvalidBoolEncoding(s.clone()))
            }
        },
        _ => Err(mismatch_for(k)),
    }
}

/// Decode a required array field; the reference points into `fields`.
pub fn get_arr<'a>(fields: &'a Vec<(String, JsonValue)>, k: &str) -> (r: Result<
    &'a Vec<JsonValue>,
    DecodeError,
>)
    ensures
        match r {
            Ok(a) => sp_arr(fields@, k@) == Ok::<Vec<JsonValue>, DecodeErrView>(*a),
            Err(e) => sp_arr(fields@, k@) == Err::<Vec<JsonValue>, DecodeErrView>(e@),
        },
{
    match obj_get(fields, k) {
        Some(JsonValue::Arr(a)) => Ok(a),
        _ => Err(mismatch_for(k)),
    }
}

/// Decode a required object field; the reference points into `fields`.
pub fn get_obj<'a>(fields: &'a Vec<(String, JsonValue)>, k: &str) -> (r: Result<
    &'a Vec<(String, JsonValue)>,
    DecodeError,
>)
    ensures
        match r {
            Ok(o) => sp_obj(fields@, k@) == Ok::<Vec<(String, JsonValue)>, DecodeErrView>(*o),
            Err(e) => sp_obj(fields@, k@) == Err::<Vec<(String, JsonValue)>, DecodeErrView>(e@),
        },
{
    match obj_get(fields, k) {
        Some(JsonValue::Obj(o)) => Ok(o),
        _ => Err(mismatch_for(k)),
    }
}

/// Decode a required object field that may stand under either of two names.
pub fn get_obj_alias<'a>(fields: &'a Vec<(String, JsonValue)>, k1: &str, k2: &str) -> (r: Result<
    &'a Vec<(String, JsonValue)>,
    DecodeError,
>)
    ensures
        match r {
            Ok(o) => sp_obj_alias(fields@, k1@, k2@) == Ok::<
                Vec<(String, JsonValue)>,
                DecodeErrView,
            >(*o),
            Err(e) => sp_obj_alias(fields@, k1@, k2@) == Err::<
                Vec<(String, JsonValue)>,
                DecodeErrView,
            >(e@),
        },
{
    let v1 = obj_get(fields, k1);
    let v2 = obj_get(fields, k2);
    match (v1, v2) {
        (Some(_), Some(_)) => Err(mismatch_for(k1)),
        (Some(JsonValue::Obj(o)), None) => Ok(o),
        (None, Some(JsonValue::Obj(o))) => Ok(o),
        _ => Err(mismatch_for(k1)),
    }
}

/// Decode a required `i32` field that may stand under either of two names.
pub fn get_i32_alias(fields: &Vec<(String, JsonValue)>, k1: &str, k2: &str) -> (r: Result<
    i32,
    DecodeError,
>)
    ensures
        decoded(r) == sp_i32_alias(fields@, k1@, k2@),
{
    let v1 = obj_get(fields, k1);
    let v2 = obj_get(fields, k2);
    let picked = match (v1, v2) {
        (Some(_), Some(_)) => {
            return Err(mismatch_for(k1));
        },
        (Some(v), None) => v,
        (None, Some(v)) => v,
        (None, None) => {
            return Err(mismatch_for(k1));
        },
    };
    match picked {
        JsonValue::Num(n) => match n.int_val {
            Some(i) => if i32::MIN as i64 <= i && i <= i32::MAX as i64 {
                Ok(i as i32)
            } else {
                Err(mismatch_for(k1))
            },
            None => Err(mismatch_for(k1)),
        },
        _ => Err(mismatch_for(k1)),
    }
}

/// Decode a required array-of-strings field.
pub fn get_string_vec(fields: &Vec<(String, JsonValue)>, k: &str) -> (r: Result<
    Vec<String>,
    DecodeError,
>)
    ensures
        match r {
            Ok(v) => sp_string_vec(fields@, k@) == Ok::<Seq<String>, DecodeErrView>(v@),
            Err(e) => sp_string_vec(fields@, k@) == Err::<Seq<String>, DecodeErrView>(e@),
        },
{
    let arr = match get_arr(fields, k) {
        Ok(a) => a,
        Err(e) => {
            return Err(e);
        },
    };
    let ghost f = sp_str_elem(k@);
    let mut out: Vec<String> = Vec::new();
    let mut i: usize = 0;
    while i < arr.len()
        invariant
            0 <= i <= arr@.len(),
            out@.len() == i,
            f == sp_str_elem(k@),
            sp_arr(fields@, k@) == Ok::<Vec<JsonValue>, DecodeErrView>(*arr),
            forall|j: int| 0 <= j < i ==> f(arr@[j]) == Ok::<String, DecodeErrView>(out@[j]),
        decreases arr@.len() - i,
    {
        match &arr[i] {
            JsonValue::Str(s) => {
                out.push(s.clone());
            },
            _ => {
                proof {
                    lemma_seq_of_err(
                        arr@,
                        f,
                        i as int,
                        DecodeErrView::SchemaMismatch(k@),
                    );
                }
                return Err(mismatch_for(k));
            },
        }
        i += 1;
    }
    proof {
        lemma_seq_of_ok(arr@, f, out@);
    }
    Ok(out)
}

} // verus!
