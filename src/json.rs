use vstd::prelude::*;

verus! {

#[verifier::external_type_specification]
#[verifier::external_body]
pub struct ExJsonValue(serde_json::Value);

#[verifier::external_type_specification]
#[verifier::external_body]
#[verifier::reject_recursive_types(K)]
#[verifier::reject_recursive_types(V)]
pub struct ExJsonMap<K, V>(serde_json::Map<K, V>);

/// A JSON object's entries.
pub type JsonMap = serde_json::Map<String, serde_json::Value>;

/// A JSON value as the codec sees it. Integers are kept exactly; numbers
/// with a fraction or an exponent are all one kind, which the codec never
/// reads.
pub enum JsonModel {
    Null,
    Bool(bool),
    Int(int),
    NonInteger,
    Str(Seq<char>),
    Arr(Seq<JsonModel>),
    Obj(Map<Seq<char>, JsonModel>),
}

/// What a `serde_json::Value` holds.
pub uninterp spec fn json_model(v: serde_json::Value) -> JsonModel;

/// What the entries of a `serde_json::Map` hold, by key.
pub uninterp spec fn json_entries(m: JsonMap) -> Map<
    Seq<char>,
    JsonModel,
>;

/// The value that serde_json parses out of `bytes`, if they are JSON text.
pub uninterp spec fn json_parsed(bytes: Seq<u8>) -> Option<JsonModel>;

/// Whether `m` nests arrays and objects at most `n` deep.
pub open spec fn nesting_within(m: JsonModel, n: nat) -> bool
    decreases n,
{
    match m {
        JsonModel::Arr(s) => n > 0 && forall|i: int|
            0 <= i < s.len() ==> nesting_within(#[trigger] s[i], (n - 1) as nat),
        JsonModel::Obj(o) => n > 0 && forall|k: Seq<char>|
            o.contains_key(k) ==> nesting_within(#[trigger] o[k], (n - 1) as nat),
        _ => true,
    }
}

/// serde_json refuses to parse text that nests arrays and objects deeper
/// than this.
pub open spec fn parse_depth_limit() -> nat {
    127
}

pub open spec fn models_of(s: Seq<serde_json::Value>) -> Seq<JsonModel> {
    s.map_values(|v: serde_json::Value| json_model(v))
}

/// Relies on `serde_json::Value::String`.
#[verifier::external_body]
pub(crate) fn json_string(s: String) -> (r: serde_json::Value)
    ensures
        json_model(r) == JsonModel::Str(s@),
{
    serde_json::Value::String(s)
}

/// Relies on `serde_json::Value::Bool`.
#[verifier::external_body]
pub(crate) fn json_bool(b: bool) -> (r: serde_json::Value)
    ensures
        json_model(r) == JsonModel::Bool(b),
{
    serde_json::Value::Bool(b)
}

/// Relies on `serde_json::Value::from(i64)`: an integer number.
#[verifier::external_body]
pub(crate) fn json_int(n: i64) -> (r: serde_json::Value)
    ensures
        json_model(r) == JsonModel::Int(n as int),
{
    serde_json::Value::from(n)
}

/// Relies on `serde_json::Value::Array`: the items in order.
#[verifier::external_body]
pub(crate) fn json_array(items: Vec<serde_json::Value>) -> (r: serde_json::Value)
    ensures
        json_model(r) == JsonModel::Arr(models_of(items@)),
{
    serde_json::Value::Array(items)
}

/// Relies on `serde_json::Value::Object`: the map's entries.
#[verifier::external_body]
pub(crate) fn json_object(entries: JsonMap) -> (r:
    serde_json::Value)
    ensures
        json_model(r) == JsonModel::Obj(json_entries(entries)),
{
    serde_json::Value::Object(entries)
}

/// An object with no entries.
pub open spec fn no_entries() -> Map<Seq<char>, JsonModel> {
    Map::empty()
}

/// Relies on `serde_json::Map::new`: no entries.
#[verifier::external_body]
pub(crate) fn json_map_new() -> (r: JsonMap)
    ensures
        json_entries(r) == no_entries(),
{
    serde_json::Map::new()
}

/// Relies on `serde_json::Map::insert`: the key now maps to the value,
/// replacing any earlier entry for it.
#[verifier::external_body]
pub(crate) fn json_map_insert(
    m: &mut JsonMap,
    key: String,
    v: serde_json::Value,
)
    ensures
        json_entries(*final(m)) == json_entries(*old(m)).insert(key@, json_model(v)),
{
    m.insert(key, v);
}

/// Relies on `serde_json::Value::get` with a `&str` key: the entry of an
/// object under that key; nothing for any other value.
#[verifier::external_body]
pub(crate) fn json_get<'a>(v: &'a serde_json::Value, key: &str) -> (r: Option<
    &'a serde_json::Value,
>)
    ensures
        match r {
            Some(x) => field(json_model(*v), key@) == Some(json_model(*x)),
            None => field(json_model(*v), key@) is None,
        },
{
    v.get(key)
}

/// Relies on `serde_json::Value::as_str`.
#[verifier::external_body]
pub(crate) fn json_as_str<'a>(v: &'a serde_json::Value) -> (r: Option<&'a str>)
    ensures
        match json_model(*v) {
            JsonModel::Str(s) => r is Some && r->0@ == s,
            _ => r is None,
        },
{
    v.as_str()
}

/// Relies on `serde_json::Value::as_bool`.
#[verifier::external_body]
pub(crate) fn json_as_bool(v: &serde_json::Value) -> (r: Option<bool>)
    ensures
        match json_model(*v) {
            JsonModel::Bool(b) => r == Some(b),
            _ => r is None,
        },
{
    v.as_bool()
}

/// Relies on `serde_json::Value::as_i64`: an integer that fits in `i64`.
#[verifier::external_body]
pub(crate) fn json_as_i64(v: &serde_json::Value) -> (r: Option<i64>)
    ensures
        match json_model(*v) {
            JsonModel::Int(n) => if i64::MIN <= n <= i64::MAX {
                r == Some(n as i64)
            } else {
                r is None
            },
            _ => r is None,
        },
{
    v.as_i64()
}

/// Relies on `serde_json::Value::is_null`.
#[verifier::external_body]
pub(crate) fn json_is_null(v: &serde_json::Value) -> (r: bool)
    ensures
        r == (json_model(*v) == JsonModel::Null),
{
    v.is_null()
}

/// Relies on `serde_json::Value::as_array`: the items of an array, in order.
#[verifier::external_body]
pub(crate) fn json_as_array<'a>(v: &'a serde_json::Value) -> (r: Option<
    &'a Vec<serde_json::Value>,
>)
    ensures
        match json_model(*v) {
            JsonModel::Arr(s) => r is Some && models_of(r->0@) == s,
            _ => r is None,
        },
{
    v.as_array()
}

/// Relies on `Clone` for `serde_json::Value`: a deep copy.
#[verifier::external_body]
pub(crate) fn json_copy(v: &serde_json::Value) -> (r: serde_json::Value)
    ensures
        json_model(r) == json_model(*v),
{
    v.clone()
}

/// Relies on serde_json's `Display` for `Value` (compact JSON text): parsing
/// that text with `serde_json::from_slice` gives an equal value, within the
/// parser's nesting limit.
#[verifier::external_body]
pub(crate) fn json_to_bytes(v: &serde_json::Value) -> (r: Vec<u8>)
    ensures
        nesting_within(json_model(*v), parse_depth_limit()) ==> json_parsed(r@) == Some(
            json_model(*v),
        ),
{
    v.to_string().into_bytes()
}

/// Relies on `serde_json::from_slice` into a `Value`.
#[verifier::external_body]
pub(crate) fn json_parse(bytes: &[u8]) -> (r: Option<serde_json::Value>)
    ensures
        match r {
            Some(v) => json_parsed(bytes@) == Some(json_model(v)),
            None => json_parsed(bytes@) is None,
        },
{
    serde_json::from_slice::<serde_json::Value>(bytes).ok()
}

/// The entry of an object under `key`.
pub open spec fn field(m: JsonModel, key: Seq<char>) -> Option<JsonModel> {
    match m {
        JsonModel::Obj(o) => if o.contains_key(key) {
            Some(o[key])
        } else {
            None
        },
        _ => None,
    }
}

/// A required string entry.
pub open spec fn str_field(m: JsonModel, key: Seq<char>) -> Option<Seq<char>> {
    match field(m, key) {
        Some(JsonModel::Str(s)) => Some(s),
        _ => None,
    }
}

/// A required boolean entry.
pub open spec fn bool_field(m: JsonModel, key: Seq<char>) -> Option<bool> {
    match field(m, key) {
        Some(JsonModel::Bool(b)) => Some(b),
        _ => None,
    }
}

/// An optional string entry: absent or null is `Some(None)`, a string is
/// `Some(Some(..))`, anything else is malformed.
pub open spec fn opt_str_field(m: JsonModel, key: Seq<char>) -> Option<Option<Seq<char>>> {
    match field(m, key) {
        None => Some(None),
        Some(JsonModel::Null) => Some(None),
        Some(JsonModel::Str(s)) => Some(Some(s)),
        _ => None,
    }
}

/// An optional `i32` entry, read as `opt_str_field` reads strings.
pub open spec fn opt_i32_field(m: JsonModel, key: Seq<char>) -> Option<Option<i32>> {
    match field(m, key) {
        None => Some(None),
        Some(JsonModel::Null) => Some(None),
        Some(JsonModel::Int(n)) => if i32::MIN <= n <= i32::MAX {
            Some(Some(n as i32))
        } else {
            None
        },
        _ => None,
    }
}

/// An optional array entry, read as `opt_str_field` reads strings.
pub open spec fn opt_array_field(m: JsonModel, key: Seq<char>) -> Option<Option<Seq<JsonModel>>> {
    match field(m, key) {
        None => Some(None),
        Some(JsonModel::Null) => Some(None),
        Some(JsonModel::Arr(s)) => Some(Some(s)),
        _ => None,
    }
}

/// A required array entry.
pub open spec fn array_field(m: JsonModel, key: Seq<char>) -> Option<Seq<JsonModel>> {
    match field(m, key) {
        Some(JsonModel::Arr(s)) => Some(s),
        _ => None,
    }
}

pub open spec fn opt_string_view(o: Option<String>) -> Option<Seq<char>> {
    match o {
        Some(s) => Some(s@),
        None => None,
    }
}

/// The object entry that an optional string adds: none when absent.
pub open spec fn put_opt_str(o: Map<Seq<char>, JsonModel>, key: Seq<char>, v: Option<Seq<char>>) -> Map<
    Seq<char>,
    JsonModel,
> {
    match v {
        Some(s) => o.insert(key, JsonModel::Str(s)),
        None => o,
    }
}

/// The object entry that an optional value adds: none when absent.
pub open spec fn put_opt(o: Map<Seq<char>, JsonModel>, key: Seq<char>, v: Option<JsonModel>) -> Map<
    Seq<char>,
    JsonModel,
> {
    match v {
        Some(x) => o.insert(key, x),
        None => o,
    }
}

/// The string a JSON value holds, if it is one.
pub open spec fn str_of(m: JsonModel) -> Option<Seq<char>> {
    match m {
        JsonModel::Str(s) => Some(s),
        _ => None,
    }
}

/// Decodes every item of `s` with `f`; `None` when any item fails.
pub open spec fn all_decode<T>(s: Seq<JsonModel>, f: spec_fn(JsonModel) -> Option<T>) -> Option<
    Seq<T>,
> {
    if forall|i: int| 0 <= i < s.len() ==> (#[trigger] f(s[i])) is Some {
        Some(s.map_values(|m: JsonModel| f(m).unwrap()))
    } else {
        None
    }
}

/// Decodes an optional array entry item by item: absent stays absent, and
/// one failing item fails the whole.
pub open spec fn opt_all_decode<T>(
    o: Option<Option<Seq<JsonModel>>>,
    f: spec_fn(JsonModel) -> Option<T>,
) -> Option<Option<Seq<T>>> {
    match o {
        None => None,
        Some(None) => Some(None),
        Some(Some(s)) => match all_decode(s, f) {
            Some(t) => Some(Some(t)),
            None => None,
        },
    }
}

/// Reads a required string entry of `v`.
pub(crate) fn read_str(v: &serde_json::Value, key: &str) -> (r: Option<String>)
    ensures
        opt_string_view(r) == str_field(json_model(*v), key@),
{
    match json_get(v, key) {
        Some(x) => match json_as_str(x) {
            Some(s) => Some(s.to_owned()),
            None => None,
        },
        None => None,
    }
}

/// Reads a required boolean entry of `v`.
pub(crate) fn read_bool(v: &serde_json::Value, key: &str) -> (r: Option<bool>)
    ensures
        r == bool_field(json_model(*v), key@),
{
    match json_get(v, key) {
        Some(x) => json_as_bool(x),
        None => None,
    }
}

/// Reads an optional string entry of `v`.
pub(crate) fn read_opt_str(v: &serde_json::Value, key: &str) -> (r: Option<Option<String>>)
    ensures
        match r {
            Some(o) => opt_str_field(json_model(*v), key@) == Some(opt_string_view(o)),
            None => opt_str_field(json_model(*v), key@) is None,
        },
{
    match json_get(v, key) {
        None => Some(None),
        Some(x) => {
            if json_is_null(x) {
                Some(None)
            } else {
                match json_as_str(x) {
                    Some(s) => Some(Some(s.to_owned())),
                    None => None,
                }
            }
        },
    }
}

/// Reads an optional `i32` entry of `v`.
pub(crate) fn read_opt_i32(v: &serde_json::Value, key: &str) -> (r: Option<Option<i32>>)
    ensures
        r == opt_i32_field(json_model(*v), key@),
{
    match json_get(v, key) {
        None => Some(None),
        Some(x) => {
            if json_is_null(x) {
                Some(None)
            } else {
                match json_as_i64(x) {
                    Some(n) => if i32::MIN as i64 <= n && n <= i32::MAX as i64 {
                        Some(Some(n as i32))
                    } else {
                        None
                    },
                    None => None,
                }
            }
        },
    }
}

/// Reads an optional array entry of `v`.
pub(crate) fn read_opt_array<'a>(v: &'a serde_json::Value, key: &str) -> (r: Option<
    Option<&'a Vec<serde_json::Value>>,
>)
    ensures
        match r {
            Some(Some(a)) => opt_array_field(json_model(*v), key@) == Some(Some(models_of(a@))),
            Some(None) => opt_array_field(json_model(*v), key@) == Some(None::<Seq<JsonModel>>),
            None => opt_array_field(json_model(*v), key@) is None,
        },
{
    match json_get(v, key) {
        None => Some(None),
        Some(x) => {
            if json_is_null(x) {
                Some(None)
            } else {
                match json_as_array(x) {
                    Some(a) => Some(Some(a)),
                    None => None,
                }
            }
        },
    }
}

/// Reads a required array entry of `v`.
pub(crate) fn read_array<'a>(v: &'a serde_json::Value, key: &str) -> (r: Option<
    &'a Vec<serde_json::Value>,
>)
    ensures
        match r {
            Some(a) => array_field(json_model(*v), key@) == Some(models_of(a@)),
            None => array_field(json_model(*v), key@) is None,
        },
{
    match json_get(v, key) {
        None => None,
        Some(x) => json_as_array(x),
    }
}

/// Adds a string entry to `m`.
pub(crate) fn put_str(m: &mut JsonMap, key: &str, s: &String)
    ensures
        json_entries(*final(m)) == json_entries(*old(m)).insert(key@, JsonModel::Str(s@)),
{
    json_map_insert(m, key.to_owned(), json_string(s.clone()));
}

/// Adds a string entry to `m` when `s` is present.
pub(crate) fn put_opt_str_entry(
    m: &mut JsonMap,
    key: &str,
    s: &Option<String>,
)
    ensures
        json_entries(*final(m)) == put_opt_str(json_entries(*old(m)), key@, opt_string_view(*s)),
{
    match s {
        Some(x) => put_str(m, key, x),
        None => {},
    }
}

} // verus!
