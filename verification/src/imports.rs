use vstd::prelude::*;

use crate::error::SwitchError;
use crate::paths::{
    opt_view, spec_expansion, spec_owned_by, starts_with_tilde, expand_home, owned_by,
};
use crate::split::components;

verus! {

/// Whether entry `e` is kept by a switch to `theme_file`: its expansion does
/// not lie inside the directory that holds `theme_file`. Meaningful only
/// when the expansion succeeds.
pub open spec fn spec_entry_kept(e: Seq<char>, theme_file: Seq<char>, home: Option<Seq<char>>) -> bool {
    !spec_owned_by(spec_expansion(e, home).unwrap(), theme_file)
}

/// Whether filtering the entries fails for want of a home directory: some
/// entry needs `~` expansion and there is no home to expand with.
pub open spec fn spec_env_failure(entries: Seq<Seq<char>>, home: Option<Seq<char>>) -> bool {
    home is None && exists|i: int| 0 <= i < entries.len() && starts_with_tilde(entries[i])
}

/// The import list that a switch to `theme_file` produces: every entry
/// whose expansion lies inside `theme_file`'s directory is dropped, the
/// rest stay unchanged and in order, and `theme_file` itself (as given,
/// unexpanded) is appended. Nothing, when some entry cannot be expanded.
pub open spec fn spec_switched(
    entries: Seq<Seq<char>>,
    theme_file: Seq<char>,
    home: Option<Seq<char>>,
) -> Option<Seq<Seq<char>>> {
    if spec_env_failure(entries, home) {
        Option::None
    } else {
        Option::Some(
            entries.filter(|e: Seq<char>| spec_entry_kept(e, theme_file, home)).push(theme_file),
        )
    }
}

/// Rewrites the import list for a switch to `theme_file`: drops previous
/// selections inside `theme_file`'s directory, keeps every other entry
/// unchanged and in order, and appends `theme_file`. Fails with `EnvError`
/// exactly when an entry starts with `~/` and no home directory is given.
pub fn update_imports(entries: &Vec<String>, theme_file: &str, home: Option<&String>) -> (r: Result<
    Vec<String>,
    SwitchError,
>)
    ensures
        match r {
            Ok(v) => spec_switched(
                entries@.map_values(|s: String| s@),
                theme_file@,
                opt_view(home),
            ) == Option::Some(v@.map_values(|s: String| s@)),
            Err(e) => e == SwitchError::EnvError && spec_switched(
                entries@.map_values(|s: String| s@),
                theme_file@,
                opt_view(home),
            ) is None,
        },
{
    let ghost all = entries@.map_values(|s: String| s@);
    let ghost kept = |e: Seq<char>| spec_entry_kept(e, theme_file@, opt_view(home));
    let mut out: Vec<String> = Vec::new();
    let mut i: usize = 0;
    proof {
        assert(all.subrange(0, 0).filter(kept) =~= Seq::<Seq<char>>::empty()) by {
            reveal(Seq::filter);
            assert(all.subrange(0, 0) =~= Seq::<Seq<char>>::empty());
        }
    }
    while i < entries.len()
        invariant
            i <= entries@.len(),
            all == entries@.map_values(|s: String| s@),
            all.len() == entries@.len(),
            kept == (|e: Seq<char>| spec_entry_kept(e, theme_file@, opt_view(home))),
            out@.map_values(|s: String| s@) == all.subrange(0, i as int).filter(kept),
            forall|k: int| 0 <= k < i ==> !(opt_view(home) is None && starts_with_tilde(
                #[trigger] all[k],
            )),
        decreases entries@.len() - i,
    {
        let entry: &String = &entries[i];
        let expanded = match expand_home(entry.as_str(), home) {
            Ok(p) => p,
            Err(e) => {
                proof {
                    assert(all[i as int] == entries@[i as int]@);
                    assert(starts_with_tilde(all[i as int]));
                    assert(spec_env_failure(all, opt_view(home)));
                }
                return Err(e);
            },
        };
        proof {
            reveal(Seq::filter);
            assert(all.subrange(0, i + 1).drop_last() =~= all.subrange(0, i as int));
            assert(all.subrange(0, i + 1).last() == all[i as int]);
        }
        if !owned_by(expanded.as_str(), theme_file) {
            out.push(entry.clone());
            proof {
                assert(out@.map_values(|s: String| s@) =~= all.subrange(0, i as int).filter(
                    kept,
                ).push(all[i as int]));
            }
        }
        i = i + 1;
    }
    proof {
        assert(all.subrange(0, all.len() as int) =~= all);
        assert(!spec_env_failure(all, opt_view(home)));
    }
    let mut result = out;
    result.push(theme_file.to_owned());
    proof {
        assert(result@.map_values(|s: String| s@) =~= all.filter(kept).push(theme_file@));
    }
    Ok(result)
}

/// An element of a filtered sequence occurs in the sequence it was
/// filtered from.
proof fn lemma_filter_elem_from<A>(s: Seq<A>, pred: spec_fn(A) -> bool, i: int)
    requires
        0 <= i < s.filter(pred).len(),
    ensures
        s.contains(s.filter(pred)[i]),
    decreases s.len(),
{
    reveal(Seq::filter);
    if s.len() > 0 {
        let sub = s.drop_last().filter(pred);
        if pred(s.last()) && i == sub.len() {
            assert(s.filter(pred)[i] == s.last());
            assert(s[s.len() - 1] == s.last());
        } else {
            lemma_filter_elem_from(s.drop_last(), pred, i);
            let j = choose|j: int|
                0 <= j < s.drop_last().len() && s.drop_last()[j] == sub[i];
            assert(s[j] == s.filter(pred)[i]);
        }
    }
}

/// Every entry of a filtered sequence satisfies the predicate, so filtering
/// again changes nothing.
proof fn lemma_filter_of_all_true<A>(s: Seq<A>, pred: spec_fn(A) -> bool)
    requires
        forall|i: int| 0 <= i < s.len() ==> pred(#[trigger] s[i]),
    ensures
        s.filter(pred) == s,
    decreases s.len(),
{
    reveal(Seq::filter);
    if s.len() > 0 {
        lemma_filter_of_all_true(s.drop_last(), pred);
        assert(s.drop_last().push(s.last()) =~= s);
    }
}

/// Switching preserves what lies outside the theme directory: when the
/// entries can all be expanded, the result is exactly the kept entries —
/// same paths, same relative order — with the new theme's path appended
/// once at the end. With `n` entries kept, the result has `n + 1` entries.
pub proof fn lemma_switch_preserves(
    entries: Seq<Seq<char>>,
    theme_file: Seq<char>,
    home: Option<Seq<char>>,
)
    requires
        !spec_env_failure(entries, home),
    ensures
        spec_switched(entries, theme_file, home) matches Some(r) && {
            let kept = entries.filter(|e: Seq<char>| spec_entry_kept(e, theme_file, home));
            &&& r.len() == kept.len() + 1
            &&& r.drop_last() == kept
            &&& r.last() == theme_file
        },
{
    let kept = entries.filter(|e: Seq<char>| spec_entry_kept(e, theme_file, home));
    assert(kept.push(theme_file).drop_last() =~= kept);
}

/// Switching twice to the same theme gives the same list as switching
/// once, and the theme's entry appears in it exactly once, at the end:
/// the second switch removes exactly the entry the first appended and
/// appends it again. The theme file's path must not itself need `~`
/// expansion and must have a final component to name its directory by.
pub proof fn lemma_switch_idempotent(
    entries: Seq<Seq<char>>,
    theme_file: Seq<char>,
    home: Option<Seq<char>>,
)
    requires
        !spec_env_failure(entries, home),
        !starts_with_tilde(theme_file),
        components(theme_file).len() > 0,
    ensures
        spec_switched(entries, theme_file, home) matches Some(once) && spec_switched(
            once,
            theme_file,
            home,
        ) == Option::Some(once),
        spec_switched(entries, theme_file, home) matches Some(once) && once.last() == theme_file
            && (forall|i: int| 0 <= i < once.len() - 1 ==> once[i] != theme_file),
{
    let kept = |e: Seq<char>| spec_entry_kept(e, theme_file, home);
    let f = entries.filter(kept);
    let once = f.push(theme_file);

    // The first result holds no entry that needs a home: the kept entries
    // come from `entries`, which raised no failure, and the theme file
    // needs none.
    assert(!spec_env_failure(once, home)) by {
        if home is None {
            assert forall|i: int| 0 <= i < once.len() implies !starts_with_tilde(once[i]) by {
                if i < f.len() {
                    assert(once[i] == f[i]);
                    lemma_filter_elem_from(entries, kept, i);
                    let j = choose|j: int| 0 <= j < entries.len() && entries[j] == f[i];
                    assert(!starts_with_tilde(entries[j]));
                } else {
                    assert(once[i] == theme_file);
                }
            }
        }
    }

    // The theme file itself is owned by its own directory, so the second
    // filter drops it.
    assert(spec_expansion(theme_file, home) == Option::Some(theme_file));
    assert(spec_owned_by(theme_file, theme_file)) by {
        assert(components(theme_file).drop_last().is_prefix_of(components(theme_file))) by {
            assert(components(theme_file).drop_last() =~= components(theme_file).subrange(
                0,
                components(theme_file).len() - 1,
            ));
        }
    }
    assert(!kept(theme_file));

    // Filtering the once-switched list keeps exactly the already-kept part.
    assert(once.filter(kept) == f) by {
        assert(once =~= f + seq![theme_file]);
        Seq::filter_distributes_over_add(f, seq![theme_file], kept);
        assert(seq![theme_file].filter(kept) =~= Seq::<Seq<char>>::empty()) by {
            reveal(Seq::filter);
            let single = seq![theme_file];
            assert(single.len() == 1);
            assert(single.last() == theme_file);
            assert(single.drop_last() =~= Seq::<Seq<char>>::empty());
            assert(single.drop_last().filter(kept) =~= Seq::<Seq<char>>::empty());
            assert(!kept(theme_file));
        }
        assert(forall|i: int| 0 <= i < f.len() ==> kept(#[trigger] f[i])) by {
            broadcast use vstd::seq_lib::group_filter_ensures;

        }
        lemma_filter_of_all_true(f, kept);
        assert(f.filter(kept) + Seq::<Seq<char>>::empty() =~= f);
    }

    // The theme's entry stands only at the end: every kept entry satisfies
    // the filter, which the theme file does not.
    assert forall|i: int| 0 <= i < once.len() - 1 implies once[i] != theme_file by {
        Seq::lemma_filter_pred(entries, kept, i);
        assert(once[i] == f[i]);
    }
}

} // verus!
