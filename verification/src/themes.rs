use vstd::prelude::*;

verus! {

/// Whether a directory entry names a theme file: a `.toml` extension after
/// a non-empty stem.
pub open spec fn spec_is_theme_file(name: Seq<char>) -> bool {
    name.len() >= 6 && name.skip(name.len() - 5) == ".toml"@
}

/// The theme's name: the file name with its `.toml` extension removed.
pub open spec fn spec_theme_name(name: Seq<char>) -> Seq<char> {
    name.take(name.len() - 5)
}

/// The themes that a list of file names offers, in the order given: the
/// stems of the names with a `.toml` extension.
pub open spec fn spec_theme_names(names: Seq<Seq<char>>) -> Seq<Seq<char>> {
    names.filter(|n: Seq<char>| spec_is_theme_file(n)).map_values(|n: Seq<char>| spec_theme_name(n))
}

/// Whether this file name names a theme file.
pub fn is_theme_file(name: &str) -> (r: bool)
    ensures
        r == spec_is_theme_file(name@),
{
    let n = name.unicode_len();
    if n < 6 {
        proof {
            reveal_strlit(".toml");
        }
        return false;
    }
    let r = name.get_char(n - 5) == '.' && name.get_char(n - 4) == 't' && name.get_char(n - 3)
        == 'o' && name.get_char(n - 2) == 'm' && name.get_char(n - 1) == 'l';
    proof {
        reveal_strlit(".toml");
        if r {
            assert(name@.skip(n - 5) =~= ".toml"@);
        } else {
            assert(name@.skip(n - 5) != ".toml"@) by {
                if name@.skip(n - 5) == ".toml"@ {
                    assert(name@.skip(n - 5)[0] == '.');
                    assert(name@.skip(n - 5)[1] == 't');
                    assert(name@.skip(n - 5)[2] == 'o');
                    assert(name@.skip(n - 5)[3] == 'm');
                    assert(name@.skip(n - 5)[4] == 'l');
                }
            }
        }
    }
    r
}

/// The themes that the given directory entries offer, in order: each file
/// name ending in `.toml`, with the extension removed. Other entries are
/// passed over.
pub fn theme_names(files: &Vec<String>) -> (r: Vec<String>)
    ensures
        r@.map_values(|s: String| s@) == spec_theme_names(files@.map_values(|s: String| s@)),
{
    let ghost all = files@.map_values(|s: String| s@);
    let ghost is_theme = |n: Seq<char>| spec_is_theme_file(n);
    let mut out: Vec<String> = Vec::new();
    let mut i: usize = 0;
    proof {
        assert(all.subrange(0, 0).filter(is_theme) =~= Seq::<Seq<char>>::empty()) by {
            reveal(Seq::filter);
            assert(all.subrange(0, 0) =~= Seq::<Seq<char>>::empty());
        }
        assert(out@.map_values(|s: String| s@) =~= all.subrange(0, 0).filter(is_theme).map_values(
            |n: Seq<char>| spec_theme_name(n),
        ));
    }
    while i < files.len()
        invariant
            i <= files@.len(),
            all == files@.map_values(|s: String| s@),
            all.len() == files@.len(),
            is_theme == (|n: Seq<char>| spec_is_theme_file(n)),
            out@.map_values(|s: String| s@) == all.subrange(0, i as int).filter(is_theme).map_values(
                |n: Seq<char>| spec_theme_name(n),
            ),
        decreases files@.len() - i,
    {
        let name: &String = &files[i];
        proof {
            reveal(Seq::filter);
            assert(all.subrange(0, i + 1).drop_last() =~= all.subrange(0, i as int));
            assert(all.subrange(0, i + 1).last() == all[i as int]);
        }
        if is_theme_file(name.as_str()) {
            let n = name.as_str().unicode_len();
            let stem = name.as_str().substring_char(0, n - 5).to_owned();
            proof {
                assert(stem@ =~= spec_theme_name(all[i as int]));
            }
            let ghost out0 = out@;
            let ghost stem_text = stem@;
            out.push(stem);
            proof {
                let f = |s: String| s@;
                let g = |n: Seq<char>| spec_theme_name(n);
                let pre = all.subrange(0, i as int).filter(is_theme);
                let post = all.subrange(0, i + 1).filter(is_theme);
                assert(post == pre.push(all[i as int]));
                assert(out0.map_values(f).len() == out0.len());
                assert(out0.len() == pre.len());
                assert(out@.len() == out0.len() + 1);
                assert forall|k: int| 0 <= k < out@.len() implies out@.map_values(f)[k]
                    == post.map_values(g)[k] by {
                    if k < out0.len() {
                        assert(out@[k] == out0[k]);
                        assert(out0.map_values(f)[k] == pre.map_values(g)[k]);
                        assert(post[k] == pre[k]);
                    } else {
                        assert(out@[k]@ == stem_text);
                        assert(post[k] == all[i as int]);
                    }
                }
                assert(out@.map_values(f) =~= post.map_values(g));
            }
        }
        i = i + 1;
    }
    proof {
        assert(all.subrange(0, all.len() as int) =~= all);
    }
    out
}

} // verus!
