use vstd::prelude::*;

verus! {

/// Whether `c` delimits the tokens of the host's version output: the
/// characters with the Unicode white-space property.
pub open spec fn spec_is_space(c: char) -> bool {
    ||| c == '\t' || c == '\n' || c == '\u{b}' || c == '\u{c}' || c == '\r' || c == ' '
    ||| c == '\u{85}' || c == '\u{a0}' || c == '\u{1680}'
    ||| '\u{2000}' <= c && c <= '\u{200a}'
    ||| c == '\u{2028}' || c == '\u{2029}' || c == '\u{202f}' || c == '\u{205f}' || c == '\u{3000}'
}

/// Whether `c` delimits tokens.
pub fn is_space_char(c: char) -> (r: bool)
    ensures
        r == spec_is_space(c),
{
    c == '\t' || c == '\n' || c == '\u{b}' || c == '\u{c}' || c == '\r' || c == ' ' || c == '\u{85}'
        || c == '\u{a0}' || c == '\u{1680}' || ('\u{2000}' <= c && c <= '\u{200a}') || c
        == '\u{2028}' || c == '\u{2029}' || c == '\u{202f}' || c == '\u{205f}' || c == '\u{3000}'
}

/// Whether `c` separates path components.
pub open spec fn spec_is_slash(c: char) -> bool {
    c == '/'
}

/// The separator predicate used by a split: path components with `by_slash`,
/// whitespace tokens without.
pub open spec fn sep_of(by_slash: bool) -> spec_fn(char) -> bool {
    if by_slash {
        |c: char| spec_is_slash(c)
    } else {
        |c: char| spec_is_space(c)
    }
}

/// State of a left-to-right split of `s`: the pieces already closed, and the
/// piece gathered since the last separator.
pub open spec fn split_state(s: Seq<char>, sep: spec_fn(char) -> bool) -> (Seq<Seq<char>>, Seq<char>)
    decreases s.len(),
{
    if s.len() == 0 {
        (Seq::<Seq<char>>::empty(), Seq::<char>::empty())
    } else {
        let prev = split_state(s.drop_last(), sep);
        if sep(s.last()) {
            if prev.1.len() > 0 {
                (prev.0.push(prev.1), Seq::<char>::empty())
            } else {
                (prev.0, Seq::<char>::empty())
            }
        } else {
            (prev.0, prev.1.push(s.last()))
        }
    }
}

/// The non-empty pieces of `s` between separators.
pub open spec fn split_parts(s: Seq<char>, sep: spec_fn(char) -> bool) -> Seq<Seq<char>> {
    let st = split_state(s, sep);
    if st.1.len() > 0 {
        st.0.push(st.1)
    } else {
        st.0
    }
}

/// The non-empty `/`-separated components of a path; repeated slashes count
/// as one, and a leading or trailing slash adds no component.
pub open spec fn components(s: Seq<char>) -> Seq<Seq<char>> {
    split_parts(s, sep_of(true))
}

/// The whitespace-delimited tokens of a line.
pub open spec fn tokens(s: Seq<char>) -> Seq<Seq<char>> {
    split_parts(s, sep_of(false))
}

/// Splits `s` into its non-empty pieces: path components with `by_slash`,
/// whitespace tokens without.
pub fn split_pieces(s: &str, by_slash: bool) -> (r: Vec<String>)
    ensures
        r@.map_values(|p: String| p@) == split_parts(s@, sep_of(by_slash)),
{
    let n = s.unicode_len();
    let mut out: Vec<String> = Vec::new();
    let mut start: usize = 0;
    let mut i: usize = 0;
    while i < n
        invariant
            n == s@.len(),
            start <= i <= n,
            ({
                let st = split_state(s@.subrange(0, i as int), sep_of(by_slash));
                &&& out@.map_values(|p: String| p@) == st.0
                &&& st.1 == s@.subrange(start as int, i as int)
            }),
        decreases n - i,
    {
        let c = s.get_char(i);
        let is_sep = if by_slash {
            c == '/'
        } else {
            is_space_char(c)
        };
        proof {
            assert(s@.subrange(0, i + 1).drop_last() =~= s@.subrange(0, i as int));
            assert(s@.subrange(0, i + 1).last() == s@[i as int]);
        }
        if is_sep {
            if start < i {
                let piece = s.substring_char(start, i).to_owned();
                proof {
                    let st = split_state(s@.subrange(0, i as int), sep_of(by_slash));
                    assert(out@.push(piece).map_values(|p: String| p@) =~= st.0.push(st.1));
                }
                out.push(piece);
            }
            start = i + 1;
            proof {
                assert(s@.subrange(i + 1, i + 1) =~= Seq::<char>::empty());
            }
        } else {
            proof {
                assert(s@.subrange(start as int, i + 1) =~= s@.subrange(start as int, i as int).push(
                    s@[i as int],
                ));
            }
        }
        i = i + 1;
    }
    proof {
        assert(s@.subrange(0, n as int) =~= s@);
    }
    if start < n {
        let piece = s.substring_char(start, n).to_owned();
        proof {
            let st = split_state(s@, sep_of(by_slash));
            assert(out@.push(piece).map_values(|p: String| p@) =~= st.0.push(st.1));
        }
        out.push(piece);
    }
    out
}

} // verus!
