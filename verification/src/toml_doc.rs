use vstd::prelude::*;

verus! {

#[verifier::external_type_specification]
#[verifier::external_body]
#[verifier::reject_recursive_types(K)]
#[verifier::reject_recursive_types(V)]
pub struct ExTomlMap<K, V>(toml::map::Map<K, V>);

#[verifier::external_type_specification]
#[verifier::external_body]
pub struct ExTomlValue(toml::Value);

#[verifier::external_type_specification]
#[verifier::external_body]
pub struct ExTomlDeError(toml::de::Error);

#[verifier::external_type_specification]
#[verifier::external_body]
pub struct ExTomlSerError(toml::ser::Error);

/// What a document table holds: its keys and the values under them.
pub uninterp spec fn doc_map(t: toml::map::Map<String, toml::Value>) -> Map<Seq<char>, toml::Value>;

/// What `toml::Value::as_str` returns: the text of a string value, nothing
/// for any other value.
pub uninterp spec fn val_str(v: toml::Value) -> Option<Seq<char>>;

/// What `toml::Value::as_array` returns: the elements of an array value,
/// nothing for any other value.
pub uninterp spec fn val_arr(v: toml::Value) -> Option<Seq<toml::Value>>;

/// What `toml::Value::as_table` returns: the contents of a table value,
/// nothing for any other value.
pub uninterp spec fn val_table(v: toml::Value) -> Option<Map<Seq<char>, toml::Value>>;

/// What parsing a text as a TOML document yields: the keys and values of
/// the document it denotes, nothing when the text is not well-formed TOML.
pub uninterp spec fn parsed_doc(s: Seq<char>) -> Option<Map<Seq<char>, toml::Value>>;

/// The text that serializing the document `t` produces.
pub uninterp spec fn doc_text(t: toml::map::Map<String, toml::Value>) -> Seq<char>;

/// Relies on toml::from_str for toml::map::Map: parses the text into the
/// document's top-level table; fails exactly on text that is not
/// well-formed TOML.
#[verifier::external_body]
pub(crate) fn parse_doc(s: &str) -> (r: Result<toml::map::Map<String, toml::Value>, toml::de::Error>)
    ensures
        r is Ok <==> parsed_doc(s@) is Some,
        r matches Ok(t) ==> parsed_doc(s@) == Option::Some(doc_map(t)),
{
    toml::from_str::<toml::map::Map<String, toml::Value>>(s)
}

/// Relies on toml::to_string_pretty: pretty-prints the document; the text
/// is a function of the document value alone. Serializing a table of
/// `toml::Value`s cannot fail: its keys are strings, every value variant
/// is representable, and none of the serializer's error paths (an
/// unsupported type, a `None`, a non-string key) is reachable.
#[verifier::external_body]
pub(crate) fn doc_to_text(t: &toml::map::Map<String, toml::Value>) -> (r: Result<
    String,
    toml::ser::Error,
>)
    ensures
        r is Ok,
        r matches Ok(s) ==> s@ == doc_text(*t),
{
    toml::to_string_pretty(t)
}

/// Relies on toml::map::Map::get: looks the key up in the table.
#[verifier::external_body]
pub(crate) fn doc_get<'a>(t: &'a toml::map::Map<String, toml::Value>, key: &str) -> (r: Option<
    &'a toml::Value,
>)
    ensures
        r is Some <==> doc_map(*t).contains_key(key@),
        r matches Some(v) ==> doc_map(*t).contains_key(key@) && *v == doc_map(*t)[key@],
{
    t.get(key)
}

/// Relies on toml::map::Map::insert: binds the key to the value, replacing
/// and returning any earlier binding.
#[verifier::external_body]
pub(crate) fn doc_insert(
    t: &mut toml::map::Map<String, toml::Value>,
    key: &str,
    v: toml::Value,
) -> (r: Option<toml::Value>)
    ensures
        doc_map(*final(t)) == doc_map(*old(t)).insert(key@, v),
        r is Some <==> doc_map(*old(t)).contains_key(key@),
        r matches Some(p) ==> doc_map(*old(t)).contains_key(key@) && p == doc_map(*old(t))[key@],
{
    t.insert(key.to_owned(), v)
}

/// The contents of an empty table.
pub open spec fn empty_doc() -> Map<Seq<char>, toml::Value> {
    Map::empty()
}

/// Relies on toml::map::Map::new: the empty table.
#[verifier::external_body]
pub(crate) fn doc_new() -> (r: toml::map::Map<String, toml::Value>)
    ensures
        doc_map(r) == empty_doc(),
{
    toml::map::Map::new()
}

/// Relies on the Clone impl of toml::map::Map: the copy holds the same
/// keys and values.
#[verifier::external_body]
pub(crate) fn doc_clone(t: &toml::map::Map<String, toml::Value>) -> (r: toml::map::Map<
    String,
    toml::Value,
>)
    ensures
        doc_map(r) == doc_map(*t),
{
    t.clone()
}

/// Relies on toml::Value::as_str: the text of a string value, `None` for
/// every other variant.
#[verifier::external_body]
pub(crate) fn value_as_string(v: &toml::Value) -> (r: Option<String>)
    ensures
        r is Some <==> val_str(*v) is Some,
        r matches Some(s) ==> val_str(*v) == Option::Some(s@),
{
    v.as_str().map(|s| s.to_owned())
}

/// Relies on toml::Value::as_array: the elements of an array value, `None`
/// for every other variant.
#[verifier::external_body]
pub(crate) fn value_as_array<'a>(v: &'a toml::Value) -> (r: Option<&'a Vec<toml::Value>>)
    ensures
        r is Some <==> val_arr(*v) is Some,
        r matches Some(a) ==> val_arr(*v) == Option::Some(a@),
{
    v.as_array()
}

/// Relies on toml::Value::as_table: the contents of a table value, `None`
/// for every other variant.
#[verifier::external_body]
pub(crate) fn value_as_table<'a>(v: &'a toml::Value) -> (r: Option<
    &'a toml::map::Map<String, toml::Value>,
>)
    ensures
        r is Some <==> val_table(*v) is Some,
        r matches Some(t) ==> val_table(*v) == Option::Some(doc_map(*t)),
{
    v.as_table()
}

/// Relies on toml::Value::String: a string value carries its text and is
/// neither an array nor a table.
#[verifier::external_body]
pub(crate) fn value_of_string(s: String) -> (r: toml::Value)
    ensures
        val_str(r) == Option::Some(s@),
        val_arr(r) is None,
        val_table(r) is None,
{
    toml::Value::String(s)
}

/// Relies on toml::Value::Array: an array value carries its elements and is
/// neither a string nor a table.
#[verifier::external_body]
pub(crate) fn value_of_array(a: Vec<toml::Value>) -> (r: toml::Value)
    ensures
        val_arr(r) == Option::Some(a@),
        val_str(r) is None,
        val_table(r) is None,
{
    toml::Value::Array(a)
}

/// Relies on toml::Value::Table: a table value carries its contents and is
/// neither a string nor an array.
#[verifier::external_body]
pub(crate) fn value_of_table(t: toml::map::Map<String, toml::Value>) -> (r: toml::Value)
    ensures
        val_table(r) == Option::Some(doc_map(t)),
        val_str(r) is None,
        val_arr(r) is None,
{
    toml::Value::Table(t)
}

} // verus!
