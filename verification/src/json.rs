//! A JSON document model: the values that the CRM replies carry and the
//! bodies that requests send, with the read accessors the mappers use.
use vstd::prelude::*;
use crate::text::{digits_value, all_digits, chars_of, digits_upto, dec, dec_int, i64_text, u64_text, opt_string_view};

verus! {

/// A JSON value. A number is held as its JSON text (as a serializer writes it),
/// so integer and fractional numbers pass through unchanged.
#[derive(Debug, PartialEq)]
pub enum Json {
    Null,
    Bool(bool),
    Number(String),
    Str(String),
    Array(Vec<Json>),
    Object(Vec<(String, Json)>),
}

/// The mathematical value of a [`Json`].
pub enum JsonV {
    Null,
    Bool(bool),
    Number(Seq<char>),
    Str(Seq<char>),
    Array(Seq<JsonV>),
    Object(Seq<(Seq<char>, JsonV)>),
}

pub open spec fn json_view(j: Json) -> JsonV
    decreases j,
{
    match j {
        Json::Null => JsonV::Null,
        Json::Bool(b) => JsonV::Bool(b),
        Json::Number(t) => JsonV::Number(t@),
        Json::Str(s) => JsonV::Str(s@),
        Json::Array(items) => JsonV::Array(
            Seq::new(
                items@.len(),
                |i: int|
                    if 0 <= i < items@.len() {
                        json_view(items@[i])
                    } else {
                        JsonV::Null
                    },
            ),
        ),
        Json::Object(entries) => JsonV::Object(
            Seq::new(
                entries@.len(),
                |i: int|
                    if 0 <= i < entries@.len() {
                        (entries@[i].0@, json_view(entries@[i].1))
                    } else {
                        (Seq::empty(), JsonV::Null)
                    },
            ),
        ),
    }
}

impl View for Json {
    type V = JsonV;

    open spec fn view(&self) -> JsonV {
        json_view(*self)
    }
}

/// The values of a sequence of JSON values.
pub open spec fn items_view(items: Seq<Json>) -> Seq<JsonV> {
    Seq::new(items.len(), |i: int| items[i]@)
}

/// The key/value pairs of a sequence of object entries.
pub open spec fn entries_view(entries: Seq<(String, Json)>) -> Seq<(Seq<char>, JsonV)> {
    Seq::new(entries.len(), |i: int| (entries[i].0@, entries[i].1@))
}

pub proof fn lemma_array_view(items: Vec<Json>)
    ensures
        Json::Array(items)@ == JsonV::Array(items_view(items@)),
{
    let a = match Json::Array(items)@ {
        JsonV::Array(a) => a,
        _ => Seq::empty(),
    };
    assert(a =~= items_view(items@));
}

pub proof fn lemma_object_view(entries: Vec<(String, Json)>)
    ensures
        Json::Object(entries)@ == JsonV::Object(entries_view(entries@)),
{
    let e = match Json::Object(entries)@ {
        JsonV::Object(e) => e,
        _ => Seq::empty(),
    };
    assert(e =~= entries_view(entries@));
}

/// The value of the first entry under key `k`, or null.
pub open spec fn lookup(es: Seq<(Seq<char>, JsonV)>, k: Seq<char>) -> JsonV
    decreases es.len(),
{
    if es.len() == 0 {
        JsonV::Null
    } else if es[0].0 == k {
        es[0].1
    } else {
        lookup(es.drop_first(), k)
    }
}

/// `v[k]`: the field `k` of an object, null for anything else or a missing key.
pub open spec fn jfield(v: JsonV, k: Seq<char>) -> JsonV {
    match v {
        JsonV::Object(es) => lookup(es, k),
        _ => JsonV::Null,
    }
}

/// `v[i]`: the item `i` of an array, null for anything else or an index out of range.
pub open spec fn jitem(v: JsonV, i: int) -> JsonV {
    match v {
        JsonV::Array(a) => if 0 <= i < a.len() {
            a[i]
        } else {
            JsonV::Null
        },
        _ => JsonV::Null,
    }
}

pub open spec fn jstr(v: JsonV) -> Option<Seq<char>> {
    match v {
        JsonV::Str(s) => Some(s),
        _ => None,
    }
}

/// The text of a number; it stands for the number's floating-point value.
pub open spec fn jnum(v: JsonV) -> Option<Seq<char>> {
    match v {
        JsonV::Number(t) => Some(t),
        _ => None,
    }
}

pub open spec fn jbool(v: JsonV) -> Option<bool> {
    match v {
        JsonV::Bool(b) => Some(b),
        _ => None,
    }
}

pub open spec fn jarray(v: JsonV) -> Option<Seq<JsonV>> {
    match v {
        JsonV::Array(a) => Some(a),
        _ => None,
    }
}

/// The integer that a JSON number text writes: an optional minus sign and digits.
/// Fractional and exponent forms write no integer.
pub open spec fn json_integer(t: Seq<char>) -> Option<int> {
    if t.len() > 0 && t[0] == '-' {
        let d = t.drop_first();
        if d.len() > 0 && all_digits(d) {
            Some(-(digits_value(d) as int))
        } else {
            None
        }
    } else if t.len() > 0 && all_digits(t) {
        Some(digits_value(t) as int)
    } else {
        None
    }
}

/// `v.as_i64()`.
pub open spec fn ji64(v: JsonV) -> Option<i64> {
    match v {
        JsonV::Number(t) => match json_integer(t) {
            Some(n) => if i64::MIN <= n <= i64::MAX {
                Some(n as i64)
            } else {
                None
            },
            None => None,
        },
        _ => None,
    }
}

/// `v.as_u64()`.
pub open spec fn ju64(v: JsonV) -> Option<u64> {
    match v {
        JsonV::Number(t) => match json_integer(t) {
            Some(n) => if 0 <= n <= u64::MAX {
                Some(n as u64)
            } else {
                None
            },
            None => None,
        },
        _ => None,
    }
}

/// The value behind an optional reference; a missing value reads as null.
pub open spec fn ov(o: Option<&Json>) -> JsonV {
    match o {
        Some(x) => x@,
        None => JsonV::Null,
    }
}

/// Same as [`ov`], under a name that reads well in contracts.
pub open spec fn ov_json(o: Option<&Json>) -> JsonV {
    ov(o)
}

/// The text behind an optional string reference.
pub open spec fn osv(o: Option<&String>) -> Option<Seq<char>> {
    match o {
        Some(s) => Some(s@),
        None => None,
    }
}

proof fn lemma_lookup_skip(es: Seq<(Seq<char>, JsonV)>, k: Seq<char>, i: int)
    requires
        0 <= i < es.len(),
    ensures
        lookup(es.skip(i), k) == if es[i].0 == k {
            es[i].1
        } else {
            lookup(es.skip(i + 1), k)
        },
{
    assert(es.skip(i).drop_first() =~= es.skip(i + 1));
}

/// `v[k]` on a value that may be missing.
pub fn field<'a>(v: Option<&'a Json>, k: &str) -> (r: Option<&'a Json>)
    ensures
        ov(r) == jfield(ov(v), k@),
{
    match v {
        Some(Json::Object(entries)) => {
            let ghost es = entries_view(entries@);
            proof {
                lemma_object_view(*entries);
                assert(es.skip(0) =~= es);
            }
            let key = k.to_owned();
            let mut i: usize = 0;
            while i < entries.len()
                invariant
                    es == entries_view(entries@),
                    ov(v) == JsonV::Object(es),
                    key@ == k@,
                    0 <= i <= entries.len(),
                    lookup(es, k@) == lookup(es.skip(i as int), k@),
                decreases entries.len() - i,
            {
                proof {
                    lemma_lookup_skip(es, k@, i as int);
                }
                if entries[i].0 == key {
                    return Some(&entries[i].1);
                }
                i = i + 1;
            }
            proof {
                assert(es.skip(i as int).len() == 0);
            }
            None
        },
        _ => None,
    }
}

/// `v[i]` on a value that may be missing.
pub fn item<'a>(v: Option<&'a Json>, i: usize) -> (r: Option<&'a Json>)
    ensures
        ov(r) == jitem(ov(v), i as int),
{
    match v {
        Some(Json::Array(items)) => {
            proof {
                lemma_array_view(*items);
            }
            if i < items.len() {
                Some(&items[i])
            } else {
                None
            }
        },
        _ => None,
    }
}

/// `v.as_str()`.
pub fn str_of<'a>(v: Option<&'a Json>) -> (r: Option<&'a String>)
    ensures
        osv(r) == jstr(ov(v)),
{
    match v {
        Some(Json::Str(s)) => Some(s),
        _ => None,
    }
}

/// The text of `v` when it is a number (it stands for `v.as_f64()`).
pub fn num_of<'a>(v: Option<&'a Json>) -> (r: Option<&'a String>)
    ensures
        osv(r) == jnum(ov(v)),
{
    match v {
        Some(Json::Number(t)) => Some(t),
        _ => None,
    }
}

/// `v.as_bool()`.
pub fn bool_of(v: Option<&Json>) -> (r: Option<bool>)
    ensures
        r == jbool(ov(v)),
{
    match v {
        Some(Json::Bool(b)) => Some(*b),
        _ => None,
    }
}

/// `v.as_array()`.
pub fn array_of<'a>(v: Option<&'a Json>) -> (r: Option<&'a Vec<Json>>)
    ensures
        match r {
            Some(items) => jarray(ov(v)) == Some(items_view(items@)),
            None => jarray(ov(v)) is None,
        },
{
    match v {
        Some(Json::Array(items)) => {
            proof {
                lemma_array_view(*items);
            }
            Some(items)
        },
        _ => None,
    }
}

/// The integer a number text writes, when it is at most `bound` in magnitude.
fn integer_upto(t: &String, bound: u64) -> (r: Option<(bool, u64)>)
    ensures
        match r {
            Some((neg, m)) => json_integer(t@) == Some(if neg {
                -(m as int)
            } else {
                m as int
            }) && m <= bound,
            None => match json_integer(t@) {
                Some(n) => n > bound || n < -(bound as int),
                None => true,
            },
        },
{
    let cs = chars_of(t.as_str());
    if cs.len() > 0 && cs[0] == '-' {
        let r = digits_upto(&cs, 1, bound);
        proof {
            assert(cs@.skip(1) =~= t@.drop_first());
        }
        match r {
            Some(m) => Some((true, m)),
            None => None,
        }
    } else {
        let r = digits_upto(&cs, 0, bound);
        proof {
            assert(cs@.skip(0) =~= t@);
        }
        match r {
            Some(m) => Some((false, m)),
            None => None,
        }
    }
}

/// `v.as_i64()`.
pub fn i64_of(v: Option<&Json>) -> (r: Option<i64>)
    ensures
        r == ji64(ov(v)),
{
    match v {
        Some(Json::Number(t)) => {
            match integer_upto(t, 9223372036854775808u64) {
                Some((neg, m)) => {
                    if neg {
                        let x: i128 = 0i128 - (m as i128);
                        Some(x as i64)
                    } else if m <= 9223372036854775807u64 {
                        Some(m as i64)
                    } else {
                        None
                    }
                },
                None => None,
            }
        },
        _ => None,
    }
}

/// `v.as_u64()`.
pub fn u64_of(v: Option<&Json>) -> (r: Option<u64>)
    ensures
        r == ju64(ov(v)),
{
    match v {
        Some(Json::Number(t)) => {
            match integer_upto(t, 18446744073709551615u64) {
                Some((neg, m)) => {
                    if neg {
                        if m == 0 {
                            Some(0u64)
                        } else {
                            None
                        }
                    } else {
                        Some(m)
                    }
                },
                None => None,
            }
        },
        _ => None,
    }
}

// ---- building values ----
/// A JSON string with the text of `s`.
pub fn jtext(s: &str) -> (r: Json)
    ensures
        r@ == JsonV::Str(s@),
{
    Json::Str(s.to_owned())
}

/// An object from its entries, in order.
pub fn object(entries: Vec<(String, Json)>) -> (r: Json)
    ensures
        r@ == JsonV::Object(entries_view(entries@)),
{
    proof {
        lemma_object_view(entries);
    }
    Json::Object(entries)
}

/// An array from its items, in order.
pub fn array(items: Vec<Json>) -> (r: Json)
    ensures
        r@ == JsonV::Array(items_view(items@)),
{
    proof {
        lemma_array_view(items);
    }
    Json::Array(items)
}

/// Appends the entry `k: v` to an object's entries.
pub fn push_entry(entries: &mut Vec<(String, Json)>, k: &str, v: Json)
    ensures
        entries_view(final(entries)@) == entries_view(old(entries)@).push((k@, v@)),
{
    entries.push((k.to_owned(), v));
    proof {
        assert(entries_view(entries@) =~= entries_view(old(entries)@).push((k@, v@)));
    }
}

/// Appends `k: s` (a string) when `s` is present.
pub fn push_opt_text(entries: &mut Vec<(String, Json)>, k: &str, s: Option<&str>)
    ensures
        entries_view(final(entries)@) == entries_view(old(entries)@) + opt_text_entry(k@, opt_view(s)),
{
    match s {
        Some(t) => {
            push_entry(entries, k, jtext(t));
            proof {
                assert(entries_view(entries@) =~= entries_view(old(entries)@) + opt_text_entry(k@, opt_view(s)));
            }
        },
        None => {
            proof {
                assert(entries_view(entries@) =~= entries_view(old(entries)@) + opt_text_entry(k@, opt_view(s)));
            }
        },
    }
}

/// The text of an optional string slice.
pub open spec fn opt_view(s: Option<&str>) -> Option<Seq<char>> {
    match s {
        Some(t) => Some(t@),
        None => None,
    }
}

/// The entry `k: s` when `s` is present, none otherwise.
pub open spec fn opt_text_entry(k: Seq<char>, s: Option<Seq<char>>) -> Seq<(Seq<char>, JsonV)> {
    match s {
        Some(t) => seq![(k, JsonV::Str(t))],
        None => seq![],
    }
}

/// A one-entry object `{k: v}`.
pub fn object1(k: &str, v: Json) -> (r: Json)
    ensures
        r@ == JsonV::Object(seq![(k@, v@)]),
{
    let mut es: Vec<(String, Json)> = Vec::new();
    push_entry(&mut es, k, v);
    proof {
        assert(entries_view(es@) =~= seq![(k@, v@)]);
    }
    object(es)
}

/// A one-item array `[v]`.
pub fn array1(v: Json) -> (r: Json)
    ensures
        r@ == JsonV::Array(seq![v@]),
{
    let mut items: Vec<Json> = Vec::new();
    items.push(v);
    proof {
        assert(items_view(items@) =~= seq![v@]);
    }
    array(items)
}

// ---- reading text out of values ----
/// `v.as_str().unwrap_or("")`.
pub open spec fn str_or_empty(v: JsonV) -> Seq<char> {
    match jstr(v) {
        Some(s) => s,
        None => Seq::empty(),
    }
}

/// `v.as_str().filter(|s| !s.is_empty())`.
pub open spec fn nonempty(v: JsonV) -> Option<Seq<char>> {
    match jstr(v) {
        Some(s) => if s.len() > 0 {
            Some(s)
        } else {
            None
        },
        None => None,
    }
}

/// `v.as_i64().map(|i| i.to_string())`.
pub open spec fn int_text(v: JsonV) -> Option<Seq<char>> {
    match ji64(v) {
        Some(n) => Some(dec_int(n as int)),
        None => None,
    }
}

/// `v.as_i64().map(|i| i.to_string()).unwrap_or_default()`.
pub open spec fn int_text_or_empty(v: JsonV) -> Seq<char> {
    match int_text(v) {
        Some(t) => t,
        None => Seq::empty(),
    }
}

pub fn text_or_empty(v: Option<&Json>) -> (r: String)
    ensures
        r@ == str_or_empty(ov(v)),
{
    match str_of(v) {
        Some(s) => s.clone(),
        None => String::new(),
    }
}

pub fn nonempty_text(v: Option<&Json>) -> (r: Option<String>)
    ensures
        opt_string_view(r) == nonempty(ov(v)),
{
    match str_of(v) {
        Some(s) => if s.as_str().is_empty() {
            None
        } else {
            Some(s.clone())
        },
        None => None,
    }
}

pub fn text_opt(v: Option<&Json>) -> (r: Option<String>)
    ensures
        opt_string_view(r) == jstr(ov(v)),
{
    match str_of(v) {
        Some(s) => Some(s.clone()),
        None => None,
    }
}

pub fn number_text(v: Option<&Json>) -> (r: Option<String>)
    ensures
        opt_string_view(r) == jnum(ov(v)),
{
    match num_of(v) {
        Some(s) => Some(s.clone()),
        None => None,
    }
}

pub fn int_text_of(v: Option<&Json>) -> (r: Option<String>)
    ensures
        opt_string_view(r) == int_text(ov(v)),
{
    match i64_of(v) {
        Some(n) => Some(i64_text(n)),
        None => None,
    }
}

pub fn int_text_or_empty_of(v: Option<&Json>) -> (r: String)
    ensures
        r@ == int_text_or_empty(ov(v)),
{
    match i64_of(v) {
        Some(n) => i64_text(n),
        None => String::new(),
    }
}

/// The values an array maps to under `g` (given `ctx`); nothing for a value that is not an array.
pub open spec fn map_array<C, V>(a: JsonV, ctx: C, g: spec_fn(C, JsonV) -> V) -> Seq<V> {
    match jarray(a) {
        Some(s) => s.map_values(|x: JsonV| g(ctx, x)),
        None => Seq::empty(),
    }
}

/// Maps each item of an optional array with `f` (given the context `ctx`),
/// whose results `g` describes.
pub fn map_items<C, T: DeepView, F: Fn(&C, &Json) -> T>(
    ctx: &C,
    items: Option<&Vec<Json>>,
    f: F,
    Ghost(g): Ghost<spec_fn(C, JsonV) -> T::V>,
) -> (r: Vec<T>)
    requires
        forall|x: &Json| #[trigger] f.requires((ctx, x)),
        forall|x: &Json, y: T| f.ensures((ctx, x), y) ==> y.deep_view() == g(*ctx, x@),
    ensures
        r.deep_view() == match items {
            Some(v) => items_view(v@).map_values(|x: JsonV| g(*ctx, x)),
            None => Seq::empty(),
        },
{
    let ghost h = |x: JsonV| g(*ctx, x);
    let mut out: Vec<T> = Vec::new();
    match items {
        Some(v) => {
            let mut i: usize = 0;
            while i < v.len()
                invariant
                    i <= v.len(),
                    h == (|x: JsonV| g(*ctx, x)),
                    forall|x: &Json| #[trigger] f.requires((ctx, x)),
                    forall|x: &Json, y: T| f.ensures((ctx, x), y) ==> y.deep_view() == g(*ctx, x@),
                    out.deep_view() =~= items_view(v@).take(i as int).map_values(h),
                decreases v.len() - i,
            {
                let y = f(ctx, &v[i]);
                proof {
                    assert(y.deep_view() == g(*ctx, v@[i as int]@));
                }
                let ghost prev = out.deep_view();
                out.push(y);
                proof {
                    assert(out.deep_view() =~= prev.push(y.deep_view()));
                    assert(items_view(v@).take(i + 1) =~= items_view(v@).take(i as int).push(
                        v@[i as int]@,
                    ));
                }
                i = i + 1;
                proof {
                    assert(out.deep_view() =~= items_view(v@).take(i as int).map_values(h));
                }
            }
            proof {
                assert(items_view(v@).take(i as int) =~= items_view(v@));
            }
            out
        },
        None => {
            proof {
                assert(out.deep_view() =~= Seq::<T::V>::empty());
            }
            out
        },
    }
}

/// The value of an optional JSON body.
pub open spec fn opt_json_view(b: Option<Json>) -> Option<JsonV> {
    match b {
        Some(j) => Some(j@),
        None => None,
    }
}

/// An object built from `base` and then the optional text entries, in order.
pub open spec fn with_texts(base: Seq<(Seq<char>, JsonV)>, items: Seq<(Seq<char>, Option<Seq<char>>)>) -> Seq<(Seq<char>, JsonV)>
    decreases items.len(),
{
    if items.len() == 0 {
        base
    } else {
        with_texts(base, items.drop_last()) + opt_text_entry(items.last().0, items.last().1)
    }
}

/// A JSON number with the decimal numeral of `n`.
pub fn jnumber(n: u64) -> (r: Json)
    ensures
        r@ == JsonV::Number(dec(n as nat)),
{
    Json::Number(u64_text(n))
}

/// A JSON number with the decimal numeral of a signed `n`.
pub fn jinteger(n: i64) -> (r: Json)
    ensures
        r@ == JsonV::Number(dec_int(n as int)),
{
    Json::Number(i64_text(n))
}

/// An empty object's entries.
pub fn no_entries() -> (r: Vec<(String, Json)>)
    ensures
        entries_view(r@) == Seq::<(Seq<char>, JsonV)>::empty(),
{
    let r: Vec<(String, Json)> = Vec::new();
    proof {
        assert(entries_view(r@) =~= Seq::<(Seq<char>, JsonV)>::empty());
    }
    r
}

} // verus!
