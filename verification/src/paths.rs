use vstd::prelude::*;

use crate::error::SwitchError;
use crate::split::{components, split_pieces};

verus! {

/// The view of an optional borrowed string, as an optional character
/// sequence.
pub open spec fn opt_view(s: Option<&String>) -> Option<Seq<char>> {
    match s {
        Option::Some(x) => Option::Some(x@),
        Option::None => Option::None,
    }
}

/// Whether the path is absolute: it begins with a slash.
pub open spec fn is_absolute(s: Seq<char>) -> bool {
    s.len() > 0 && s[0] == '/'
}

pub fn path_is_absolute(s: &str) -> (r: bool)
    ensures
        r == is_absolute(s@),
{
    s.unicode_len() > 0 && s.get_char(0) == '/'
}

/// Whether the path begins with the `~/` prefix that expansion replaces.
pub open spec fn starts_with_tilde(s: Seq<char>) -> bool {
    s.len() >= 2 && s[0] == '~' && s[1] == '/'
}

/// The expansion of `~/rest` under home `h`: `h` followed by `/rest`, with
/// no doubled slash when `h` already ends in one, and `rest` alone when
/// `h` is empty.
pub open spec fn spec_expanded(s: Seq<char>, h: Seq<char>) -> Seq<char> {
    if h.len() == 0 || h.last() == '/' {
        h + s.skip(2)
    } else {
        h + s.skip(1)
    }
}

/// What expanding `s` yields: paths that do not begin with `~/` stay as they
/// are; a `~/` prefix needs the home directory, and without one the
/// expansion fails (`None`).
pub open spec fn spec_expansion(s: Seq<char>, home: Option<Seq<char>>) -> Option<Seq<char>> {
    if starts_with_tilde(s) {
        match home {
            Option::Some(h) => Option::Some(spec_expanded(s, h)),
            Option::None => Option::None,
        }
    } else {
        Option::Some(s)
    }
}

/// Replaces a leading `~/` with the home directory; any other path is
/// returned unchanged. Fails with `EnvError` exactly when the path needs
/// the home directory and none is available.
pub fn expand_home(path: &str, home: Option<&String>) -> (r: Result<String, SwitchError>)
    ensures
        match r {
            Ok(p) => spec_expansion(path@, opt_view(home)) == Option::Some(p@),
            Err(e) => e == SwitchError::EnvError && spec_expansion(path@, opt_view(home)) is None,
        },
{
    let n = path.unicode_len();
    let tilde = n >= 2 && path.get_char(0) == '~' && path.get_char(1) == '/';
    if !tilde {
        return Ok(path.to_owned());
    }
    match home {
        Option::None => Err(SwitchError::EnvError),
        Option::Some(h) => {
            let hs: &str = h.as_str();
            let hn = hs.unicode_len();
            let mut out: String = h.clone();
            let rest: &str = if hn == 0 || hs.get_char(hn - 1) == '/' {
                path.substring_char(2, n)
            } else {
                path.substring_char(1, n)
            };
            out.append(rest);
            proof {
                assert(path@.subrange(2, n as int) =~= path@.skip(2));
                assert(path@.subrange(1, n as int) =~= path@.skip(1));
            }
            Ok(out)
        },
    }
}

/// The components of the directory that holds the file at `p`: all of `p`'s
/// components but the last.
pub open spec fn parent_components(p: Seq<char>) -> Seq<Seq<char>> {
    if components(p).len() > 0 {
        components(p).drop_last()
    } else {
        Seq::<Seq<char>>::empty()
    }
}

/// Whether `path` lies inside the directory that holds `theme_file`: both
/// are absolute or both relative, and that directory's components lead
/// `path`'s components.
pub open spec fn spec_owned_by(path: Seq<char>, theme_file: Seq<char>) -> bool {
    &&& is_absolute(path) == is_absolute(theme_file)
    &&& parent_components(theme_file).is_prefix_of(components(path))
}

pub fn owned_by(path: &str, theme_file: &str) -> (r: bool)
    ensures
        r == spec_owned_by(path@, theme_file@),
{
    if path_is_absolute(path) != path_is_absolute(theme_file) {
        return false;
    }
    let pc = split_pieces(path, true);
    let mut tc = split_pieces(theme_file, true);
    if tc.len() > 0 {
        tc.pop();
    }
    proof {
        assert(tc@.map_values(|p: String| p@) =~= parent_components(theme_file@));
    }
    if tc.len() > pc.len() {
        return false;
    }
    let mut j: usize = 0;
    while j < tc.len()
        invariant
            j <= tc@.len() <= pc@.len(),
            pc@.map_values(|p: String| p@) == components(path@),
            tc@.map_values(|p: String| p@) == parent_components(theme_file@),
            forall|k: int| 0 <= k < j ==> #[trigger] tc@[k]@ == pc@[k]@,
        decreases tc@.len() - j,
    {
        if !(tc[j] == pc[j]) {
            proof {
                if parent_components(theme_file@).is_prefix_of(components(path@)) {
                    assert(parent_components(theme_file@)[j as int] == components(path@)[j as int]);
                    assert(tc@.map_values(|p: String| p@)[j as int] == pc@.map_values(
                        |p: String| p@,
                    )[j as int]);
                }
            }
            return false;
        }
        j = j + 1;
    }
    proof {
        assert(parent_components(theme_file@).is_prefix_of(components(path@))) by {
            assert(parent_components(theme_file@) =~= components(path@).subrange(
                0,
                parent_components(theme_file@).len() as int,
            ));
        }
    }
    true
}

/// `dir` and `name` joined with a single slash between them.
pub open spec fn spec_joined(dir: Seq<char>, name: Seq<char>) -> Seq<char> {
    if dir.len() == 0 {
        name
    } else if dir.last() == '/' {
        dir + name
    } else {
        dir + seq!['/'] + name
    }
}

pub fn join_path(dir: &str, name: &str) -> (r: String)
    ensures
        r@ == spec_joined(dir@, name@),
{
    let n = dir.unicode_len();
    if n == 0 {
        return name.to_owned();
    }
    let mut out = dir.to_owned();
    if !(dir.get_char(n - 1) == '/') {
        out.append("/");
        proof {
            reveal_strlit("/");
            assert(dir@ + "/"@ =~= dir@ + seq!['/']);
        }
    }
    out.append(name);
    proof {
        assert(dir@ + seq!['/'] + name@ =~= (dir@ + seq!['/']) + name@);
    }
    out
}

/// The configuration home that the environment determines:
/// `$XDG_CONFIG_HOME` when set and non-empty (itself `~`-expanded), else
/// `$HOME/.config/`; nothing when `$HOME` would be needed but is unset.
pub open spec fn spec_config_home(xdg: Option<Seq<char>>, home: Option<Seq<char>>) -> Option<
    Seq<char>,
> {
    match xdg {
        Option::Some(x) => if x.len() > 0 {
            spec_expansion(x, home)
        } else {
            spec_home_config(home)
        },
        Option::None => spec_home_config(home),
    }
}

/// `$HOME/.config/`, when a home directory is available.
pub open spec fn spec_home_config(home: Option<Seq<char>>) -> Option<Seq<char>> {
    match home {
        Option::Some(h) => Option::Some(spec_joined(h, ".config/"@)),
        Option::None => Option::None,
    }
}

pub fn resolve_config_home(xdg: Option<&String>, home: Option<&String>) -> (r: Result<
    String,
    SwitchError,
>)
    ensures
        match r {
            Ok(p) => spec_config_home(opt_view(xdg), opt_view(home)) == Option::Some(p@),
            Err(e) => e == SwitchError::EnvError && spec_config_home(opt_view(xdg), opt_view(home))
                is None,
        },
{
    match xdg {
        Option::Some(x) => {
            if x.as_str().unicode_len() > 0 {
                return expand_home(x.as_str(), home);
            }
            home_config(home)
        },
        Option::None => home_config(home),
    }
}

fn home_config(home: Option<&String>) -> (r: Result<String, SwitchError>)
    ensures
        match r {
            Ok(p) => spec_home_config(opt_view(home)) == Option::Some(p@),
            Err(e) => e == SwitchError::EnvError && spec_home_config(opt_view(home)) is None,
        },
{
    match home {
        Option::Some(h) => Ok(join_path(h.as_str(), ".config/")),
        Option::None => Err(SwitchError::EnvError),
    }
}

/// The default theme directory under the configuration home.
pub fn default_theme_dir(config_home: &str) -> (r: String)
    ensures
        r@ == spec_joined(config_home@, "alacritty/themes/themes/"@),
{
    join_path(config_home, "alacritty/themes/themes/")
}

/// The configuration file locations tried, in order, when no override is
/// given.
pub fn config_file_candidates(config_home: &str) -> (r: Vec<String>)
    ensures
        r@.len() == 2,
        r@[0]@ == spec_joined(config_home@, "alacritty.toml"@),
        r@[1]@ == spec_joined(config_home@, "alacritty/alacritty.toml"@),
{
    let mut out: Vec<String> = Vec::new();
    out.push(join_path(config_home, "alacritty.toml"));
    out.push(join_path(config_home, "alacritty/alacritty.toml"));
    out
}

/// The path of the theme file named `theme` inside `theme_dir`.
pub fn theme_file_path(theme_dir: &str, theme: &str) -> (r: String)
    ensures
        r@ == spec_joined(theme_dir@, theme@ + ".toml"@),
{
    let mut name = theme.to_owned();
    name.append(".toml");
    join_path(theme_dir, name.as_str())
}

} // verus!
