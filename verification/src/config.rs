use vstd::prelude::*;

use crate::error::SwitchError;
use crate::imports::{spec_env_failure, spec_switched, update_imports};
use crate::paths::opt_view;
use crate::toml_doc::{
    doc_clone, doc_get, doc_insert, doc_map, doc_new, doc_text, doc_to_text, empty_doc, parse_doc,
    parsed_doc, val_arr, val_str, val_table, value_as_array, value_as_string, value_as_table,
    value_of_array, value_of_string, value_of_table,
};
use crate::version::{
    Schema, Version, parse_version_output, schema_for, spec_uses_general, spec_version_of_output,
};

verus! {

/// Whether every element of the array is a string value.
pub open spec fn spec_all_strings(a: Seq<toml::Value>) -> bool {
    forall|i: int| 0 <= i < a.len() ==> val_str(#[trigger] a[i]) is Some
}

/// The texts of an array of string values.
pub open spec fn spec_string_entries(a: Seq<toml::Value>) -> Seq<Seq<char>> {
    a.map_values(|v: toml::Value| val_str(v)->Some_0)
}

/// The import list a table holds under its `import` key: an absent key
/// counts as an empty list, and a value that is not an array of strings is
/// malformed (`None`).
pub open spec fn spec_imports_at(t: Map<Seq<char>, toml::Value>) -> Option<Seq<Seq<char>>> {
    if !t.contains_key("import"@) {
        Option::Some(Seq::empty())
    } else {
        match val_arr(t["import"@]) {
            Option::Some(a) => if spec_all_strings(a) {
                Option::Some(spec_string_entries(a))
            } else {
                Option::None
            },
            Option::None => Option::None,
        }
    }
}

/// Where the import list lives and what it holds: under the `general`
/// table from host version 0.14.0 on, at top level before. A `general`
/// value that is not a table is malformed, like a malformed list itself;
/// an absent `general` table means an empty list.
pub open spec fn spec_read_imports(doc: Map<Seq<char>, toml::Value>, general: bool) -> Option<
    Seq<Seq<char>>,
> {
    if general {
        if !doc.contains_key("general"@) {
            Option::Some(Seq::empty())
        } else {
            match val_table(doc["general"@]) {
                Option::Some(g) => spec_imports_at(g),
                Option::None => Option::None,
            }
        }
    } else {
        spec_imports_at(doc)
    }
}

/// Reads the import list a single table holds under `import`.
fn read_imports_at(t: &toml::map::Map<String, toml::Value>) -> (r: Result<Vec<String>, SwitchError>)
    ensures
        match r {
            Ok(v) => spec_imports_at(doc_map(*t)) == Option::Some(
                v@.map_values(|s: String| s@),
            ),
            Err(e) => e == SwitchError::SchemaError && spec_imports_at(doc_map(*t)) is None,
        },
{
    let val: &toml::Value = match doc_get(t, "import") {
        Option::None => {
            let empty: Vec<String> = Vec::new();
            proof {
                assert(empty@.map_values(|s: String| s@) =~= Seq::<Seq<char>>::empty());
            }
            return Ok(empty);
        },
        Option::Some(v) => v,
    };
    let arr: &Vec<toml::Value> = match value_as_array(val) {
        Option::None => {
            return Err(SwitchError::SchemaError);
        },
        Option::Some(a) => a,
    };
    let ghost a = arr@;
    let mut out: Vec<String> = Vec::new();
    let mut i: usize = 0;
    proof {
        assert(out@.map_values(|s: String| s@) =~= a.subrange(0, 0).map_values(
            |v: toml::Value| val_str(v)->Some_0,
        ));
    }
    while i < arr.len()
        invariant
            i <= a.len(),
            a == arr@,
            doc_map(*t).contains_key("import"@),
            val_arr(doc_map(*t)["import"@]) == Option::Some(a),
            forall|k: int| 0 <= k < i ==> val_str(#[trigger] a[k]) is Some,
            out@.map_values(|s: String| s@) == a.subrange(0, i as int).map_values(
                |v: toml::Value| val_str(v)->Some_0,
            ),
        decreases a.len() - i,
    {
        let v: &toml::Value = &arr[i];
        match value_as_string(v) {
            Option::None => {
                proof {
                    assert(!spec_all_strings(a));
                }
                return Err(SwitchError::SchemaError);
            },
            Option::Some(s) => {
                let ghost out0 = out@;
                let ghost text = s@;
                out.push(s);
                proof {
                    assert(val_str(a[i as int]) == Option::Some(text));
                    assert(out0.map_values(|p: String| p@).len() == out0.len());
                    assert(a.subrange(0, i as int).len() == i as int);
                    assert(out0.len() == i as int);
                    assert(out@.len() == out0.len() + 1);
                    assert(forall|k: int| 0 <= k < i ==> #[trigger] out@[k] == out0[k]);
                    assert(out@[i as int]@ == text);
                    let f = |p: String| p@;
                    let g = |v: toml::Value| val_str(v)->Some_0;
                    let pre = a.subrange(0, i as int);
                    let post = a.subrange(0, i + 1);
                    assert forall|k: int| 0 <= k < i + 1 implies out@.map_values(f)[k]
                        == post.map_values(g)[k] by {
                        if k < i {
                            assert(out@[k] == out0[k]);
                            assert(out0.map_values(f)[k] == pre.map_values(g)[k]);
                            assert(pre[k] == a[k]);
                            assert(post[k] == a[k]);
                        } else {
                            assert(out@[k]@ == text);
                            assert(post[k] == a[i as int]);
                        }
                    }
                    assert(out@.map_values(f) =~= post.map_values(g));
                }
            },
        }
        i = i + 1;
    }
    proof {
        assert(a.subrange(0, a.len() as int) =~= a);
        assert(spec_all_strings(a));
        assert(spec_string_entries(a) == out@.map_values(|s: String| s@));
    }
    Ok(out)
}

/// Reads the import list out of the document at the location the schema
/// selects. An absent list is empty; a malformed one is `SchemaError`.
pub fn read_import_list(doc: &toml::map::Map<String, toml::Value>, schema: Schema) -> (r: Result<
    Vec<String>,
    SwitchError,
>)
    ensures
        match r {
            Ok(v) => spec_read_imports(doc_map(*doc), schema is General) == Option::Some(
                v@.map_values(|s: String| s@),
            ),
            Err(e) => e == SwitchError::SchemaError && spec_read_imports(
                doc_map(*doc),
                schema is General,
            ) is None,
        },
{
    match schema {
        Schema::Legacy => read_imports_at(doc),
        Schema::General => {
            match doc_get(doc, "general") {
                Option::None => {
                    let empty: Vec<String> = Vec::new();
                    proof {
                        assert(empty@.map_values(|s: String| s@) =~= Seq::<Seq<char>>::empty());
                    }
                    Ok(empty)
                },
                Option::Some(gv) => match value_as_table(gv) {
                    Option::None => Err(SwitchError::SchemaError),
                    Option::Some(g) => read_imports_at(g),
                },
            }
        },
    }
}

/// Whether `v` is an array holding exactly the given texts as strings.
pub open spec fn spec_is_string_array(v: toml::Value, entries: Seq<Seq<char>>) -> bool {
    &&& val_str(v) is None
    &&& val_table(v) is None
    &&& match val_arr(v) {
        Option::Some(a) => spec_all_strings(a) && spec_string_entries(a) == entries,
        Option::None => false,
    }
}

/// The contents of the document's `general` table: empty when absent.
/// Meaningful only where `general`, if present, is a table.
pub open spec fn spec_general_of(m0: Map<Seq<char>, toml::Value>) -> Map<Seq<char>, toml::Value> {
    if m0.contains_key("general"@) {
        match val_table(m0["general"@]) {
            Option::Some(g) => g,
            Option::None => empty_doc(),
        }
    } else {
        empty_doc()
    }
}

/// How a written document relates to the one before: the import list at
/// the schema's location holds exactly `entries`, and every other binding
/// of the document (and, in the nested schema, every other key of
/// `general`) is unchanged.
pub open spec fn spec_written_doc(
    m0: Map<Seq<char>, toml::Value>,
    m1: Map<Seq<char>, toml::Value>,
    general: bool,
    entries: Seq<Seq<char>>,
) -> bool {
    if general {
        &&& m1.dom() == m0.dom().insert("general"@)
        &&& forall|k: Seq<char>| m0.contains_key(k) && k != "general"@ ==> #[trigger] m1[k]
            == m0[k]
        &&& m1.contains_key("general"@)
        &&& match val_table(m1["general"@]) {
            Option::Some(g1) => {
                let g0 = spec_general_of(m0);
                &&& g1.dom() == g0.dom().insert("import"@)
                &&& forall|k: Seq<char>| g0.contains_key(k) && k != "import"@ ==> #[trigger] g1[k]
                    == g0[k]
                &&& g1.contains_key("import"@)
                &&& spec_is_string_array(g1["import"@], entries)
            },
            Option::None => false,
        }
    } else {
        &&& m1.dom() == m0.dom().insert("import"@)
        &&& forall|k: Seq<char>| m0.contains_key(k) && k != "import"@ ==> #[trigger] m1[k] == m0[k]
        &&& m1.contains_key("import"@)
        &&& spec_is_string_array(m1["import"@], entries)
    }
}

/// Writes `entries` as the import list at the location the schema selects,
/// leaving every other binding alone. Fails with `SchemaError` exactly
/// when the nested location is blocked by a `general` value that is not a
/// table; the document is then left unchanged.
pub fn write_import_list(
    doc: &mut toml::map::Map<String, toml::Value>,
    schema: Schema,
    entries: &Vec<String>,
) -> (r: Result<(), SwitchError>)
    ensures
        match r {
            Ok(()) => spec_written_doc(
                doc_map(*old(doc)),
                doc_map(*final(doc)),
                schema is General,
                entries@.map_values(|s: String| s@),
            ),
            Err(e) => {
                &&& e == SwitchError::SchemaError
                &&& *final(doc) == *old(doc)
                &&& schema is General
                &&& doc_map(*old(doc)).contains_key("general"@)
                &&& val_table(doc_map(*old(doc))["general"@]) is None
            },
        },
{
    let ghost es = entries@.map_values(|s: String| s@);
    let mut vals: Vec<toml::Value> = Vec::new();
    let mut i: usize = 0;
    while i < entries.len()
        invariant
            i <= entries@.len(),
            es == entries@.map_values(|s: String| s@),
            *doc == *old(doc),
            vals@.len() == i as int,
            forall|k: int| 0 <= k < i ==> val_str(#[trigger] vals@[k]) == Option::Some(es[k]),
            forall|k: int| 0 <= k < i ==> val_arr(#[trigger] vals@[k]) is None && val_table(
                vals@[k],
            ) is None,
        decreases entries@.len() - i,
    {
        let s: String = entries[i].clone();
        vals.push(value_of_string(s));
        i = i + 1;
    }
    let arr_val = value_of_array(vals);
    proof {
        assert(spec_is_string_array(arr_val, es)) by {
            assert(spec_string_entries(val_arr(arr_val)->Some_0) =~= es);
        }
    }
    match schema {
        Schema::Legacy => {
            doc_insert(doc, "import", arr_val);
            Ok(())
        },
        Schema::General => {
            let inner: toml::map::Map<String, toml::Value> = match doc_get(doc, "general") {
                Option::None => doc_new(),
                Option::Some(gv) => match value_as_table(gv) {
                    Option::None => {
                        return Err(SwitchError::SchemaError);
                    },
                    Option::Some(g) => doc_clone(g),
                },
            };
            let mut inner = inner;
            proof {
                assert(doc_map(inner) == spec_general_of(doc_map(*old(doc))));
            }
            doc_insert(&mut inner, "import", arr_val);
            let gval = value_of_table(inner);
            doc_insert(doc, "general", gval);
            Ok(())
        },
    }
}

/// A document written at a schema location reads back, at that same
/// location, as exactly the entries written: writing loses nothing and
/// invents nothing.
pub proof fn lemma_written_reads_back(
    m0: Map<Seq<char>, toml::Value>,
    m1: Map<Seq<char>, toml::Value>,
    general: bool,
    entries: Seq<Seq<char>>,
)
    requires
        spec_written_doc(m0, m1, general, entries),
    ensures
        spec_read_imports(m1, general) == Option::Some(entries),
{
}

/// Switching a document twice in succession to the same theme yields the
/// same import list as switching once: the once-switched document reads
/// back exactly the switched list, and switching that list again leaves
/// it as it is. The theme file's path must not itself need `~` expansion
/// and must have a final component to name its directory by.
pub proof fn lemma_document_switch_idempotent(
    m0: Map<Seq<char>, toml::Value>,
    m1: Map<Seq<char>, toml::Value>,
    general: bool,
    theme_file: Seq<char>,
    home: Option<Seq<char>>,
)
    requires
        spec_read_imports(m0, general) matches Some(entries0) && (spec_switched(
            entries0,
            theme_file,
            home,
        ) matches Some(list) && spec_written_doc(m0, m1, general, list)),
        !crate::paths::starts_with_tilde(theme_file),
        crate::split::components(theme_file).len() > 0,
    ensures
        ({
            let list = spec_switched(spec_read_imports(m0, general)->Some_0, theme_file, home)
                ->Some_0;
            &&& spec_read_imports(m1, general) == Option::Some(list)
            &&& spec_switched(list, theme_file, home) == Option::Some(list)
        }),
{
    let entries0 = spec_read_imports(m0, general)->Some_0;
    let list = spec_switched(entries0, theme_file, home)->Some_0;
    lemma_written_reads_back(m0, m1, general, list);
    crate::imports::lemma_switch_idempotent(entries0, theme_file, home);
}

/// Rewrites the document's import list for a switch to `theme_file`: the
/// entries the schema's location held, with previous selections inside
/// `theme_file`'s directory dropped and `theme_file` appended, are written
/// back to that same location; every other binding stays. On any failure
/// the document is left unchanged.
pub fn edit_document(
    doc: &mut toml::map::Map<String, toml::Value>,
    version: &Version,
    theme_file: &str,
    home: Option<&String>,
) -> (r: Result<(), SwitchError>)
    ensures
        ({
            let general = spec_uses_general(version@);
            let read0 = spec_read_imports(doc_map(*old(doc)), general);
            match r {
                Ok(()) => {
                    &&& read0 matches Some(entries0)
                    &&& spec_switched(entries0, theme_file@, opt_view(home)) matches Some(list)
                    &&& spec_written_doc(doc_map(*old(doc)), doc_map(*final(doc)), general, list)
                },
                Err(e) => {
                    &&& *final(doc) == *old(doc)
                    &&& (e == SwitchError::SchemaError <==> read0 is None)
                    &&& (e == SwitchError::EnvError <==> read0 is Some && spec_env_failure(
                        read0->Some_0,
                        opt_view(home),
                    ))
                    &&& (e == SwitchError::SchemaError || e == SwitchError::EnvError)
                },
            }
        }),
{
    let schema = schema_for(version);
    let entries = match read_import_list(doc, schema) {
        Ok(v) => v,
        Err(e) => {
            return Err(e);
        },
    };
    let updated = match update_imports(&entries, theme_file, home) {
        Ok(v) => v,
        Err(e) => {
            return Err(e);
        },
    };
    match write_import_list(doc, schema, &updated) {
        Ok(u) => Ok(u),
        Err(e) => {
            // unreachable: the read succeeded, so `general` is absent or a
            // table, and the nested write cannot be blocked
            proof {
                assert(false);
            }
            Err(e)
        },
    }
}

/// Switches the configuration text's import list to `theme_file`: parses
/// the text, reads the host version out of `version_output`, rewrites the
/// import list at the location the version selects, and returns the
/// serialized result. Entries outside `theme_file`'s directory are kept
/// word for word; previous selections inside it are dropped; `theme_file`
/// is appended as given.
pub fn set_theme_file(
    theme_file: &str,
    config_text: &str,
    version_output: &str,
    home: Option<&String>,
) -> (r: Result<String, SwitchError>)
    ensures
        ({
            let doc0 = parsed_doc(config_text@);
            let ver = spec_version_of_output(version_output@);
            match r {
                Ok(out) => {
                    &&& doc0 matches Some(m0)
                    &&& ver matches Some(v)
                    &&& spec_read_imports(m0, spec_uses_general(v)) matches Some(entries0)
                    &&& spec_switched(entries0, theme_file@, opt_view(home)) matches Some(list)
                    &&& exists|d: toml::map::Map<String, toml::Value>|
                        #[trigger] doc_text(d) == out@ && spec_written_doc(
                            m0,
                            doc_map(d),
                            spec_uses_general(v),
                            list,
                        )
                },
                Err(e) => {
                    &&& (e == SwitchError::ParseError <==> doc0 is None || ver is None)
                    &&& (e == SwitchError::SchemaError <==> doc0 is Some && ver is Some
                        && spec_read_imports(doc0->Some_0, spec_uses_general(ver->Some_0)) is None)
                    &&& (e == SwitchError::EnvError <==> doc0 is Some && ver is Some && (
                    spec_read_imports(doc0->Some_0, spec_uses_general(ver->Some_0)) matches Some(
                        entries0,
                    ) && spec_env_failure(entries0, opt_view(home))))
                    &&& (e == SwitchError::ParseError || e == SwitchError::SchemaError || e
                        == SwitchError::EnvError)
                },
            }
        }),
{
    let mut doc = match parse_doc(config_text) {
        Ok(d) => d,
        Err(_) => {
            return Err(SwitchError::ParseError);
        },
    };
    let version = match parse_version_output(version_output) {
        Ok(v) => v,
        Err(e) => {
            return Err(e);
        },
    };
    match edit_document(&mut doc, &version, theme_file, home) {
        Ok(u) => u,
        Err(e) => {
            return Err(e);
        },
    }
    match doc_to_text(&doc) {
        Ok(s) => Ok(s),
        Err(_) => {
            // unreachable: serializing a table of values cannot fail
            proof {
                assert(false);
            }
            Err(SwitchError::WriteError)
        },
    }
}

} // verus!
