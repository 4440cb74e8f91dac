//! Where the program keeps its files.

use vstd::prelude::*;
use crate::text::{characters, opt_text};

verus! {

/// What the process environment says of the user's directories. A variable that
/// is unset, or that holds no valid text, is `None`.
#[derive(Debug)]
pub struct Environment {
    /// `XDG_CONFIG_HOME`
    pub xdg_config_home: Option<String>,
    /// `HOME`
    pub home: Option<String>,
}

/// The texts of an [`Environment`].
pub struct EnvironmentView {
    pub xdg_config_home: Option<Seq<char>>,
    pub home: Option<Seq<char>>,
}

impl View for Environment {
    type V = EnvironmentView;

    open spec fn view(&self) -> EnvironmentView {
        EnvironmentView {
            xdg_config_home: opt_text(self.xdg_config_home),
            home: opt_text(self.home),
        }
    }
}

/// The path `base` extended by the relative path `rest`, with one separator
/// between them where `base` is neither empty nor ends in one.
pub open spec fn joined(base: Seq<char>, rest: Seq<char>) -> Seq<char> {
    if base.len() == 0 || base.last() == '/' {
        base + rest
    } else {
        base + "/"@ + rest
    }
}

/// The path of the configuration file.
pub open spec fn config_file(env: EnvironmentView) -> Seq<char> {
    let base = match env.xdg_config_home {
        Some(dir) => dir,
        None => match env.home {
            Some(home) => joined(home, ".config"@),
            None => "."@,
        },
    };
    joined(base, "iswitch/config.toml"@)
}

/// The path of the log file where the configuration names none.
pub open spec fn log_file(env: EnvironmentView) -> Seq<char> {
    let base = match env.xdg_config_home {
        Some(dir) => dir,
        None => match env.home {
            Some(home) => home + "/.config"@,
            None => "."@,
        },
    };
    base + "/iswitch/iswitch.log"@
}

/// A path without what stands for nothing at its end: separators, and steps that
/// stay in the directory. The root stays.
pub open spec fn tidy_end(path: Seq<char>) -> Seq<char>
    decreases path.len(),
{
    if path.len() > 1 && (path.last() == '/' || path.last() == '.' && path[path.len() - 2] == '/') {
        tidy_end(path.drop_last())
    } else {
        path
    }
}

/// A path up to and with its last separator; nothing where it has none.
pub open spec fn up_to_separator(path: Seq<char>) -> Seq<char>
    decreases path.len(),
{
    if path.len() == 0 || path.last() == '/' {
        path
    } else {
        up_to_separator(path.drop_last())
    }
}

/// The directory of a path: the path without its last part. The root and the empty
/// path have none; that of a single part is the empty path.
pub open spec fn parent_dir(path: Seq<char>) -> Option<Seq<char>> {
    let tidy = tidy_end(path);
    if tidy.len() == 0 || tidy == seq!['/'] {
        None
    } else {
        Some(tidy_end(up_to_separator(tidy)))
    }
}

/// How much of the first `len` characters is left without what stands for nothing
/// at their end.
fn tidy_len(path: &Vec<char>, len: usize) -> (left: usize)
    requires
        len <= path@.len(),
    ensures
        left <= len,
        path@.take(left as int) == tidy_end(path@.take(len as int)),
{
    let mut left: usize = len;
    while left > 1 && (path[left - 1] == '/' || path[left - 1] == '.' && path[left - 2] == '/')
        invariant
            left <= len <= path@.len(),
            tidy_end(path@.take(left as int)) == tidy_end(path@.take(len as int)),
        decreases left,
    {
        proof {
            assert(path@.take(left as int).drop_last() =~= path@.take(left - 1));
        }
        left -= 1;
    }
    left
}

/// The directory of a path.
pub fn parent(path: &str) -> (dir: Option<String>)
    ensures
        opt_text(dir) == parent_dir(path@),
{
    let chars: Vec<char> = characters(path);
    proof {
        assert(chars@.take(chars@.len() as int) =~= path@);
    }
    let tidy: usize = tidy_len(&chars, chars.len());
    let ghost whole = chars@.take(tidy as int);
    if tidy == 0 {
        return None;
    }
    if tidy == 1 && chars[0] == '/' {
        proof {
            assert(whole =~= seq!['/']);
        }
        return None;
    }
    proof {
        assert(whole[0] == chars@[0]);
    }
    let mut end: usize = tidy;
    while end > 0 && chars[end - 1] != '/'
        invariant
            end <= tidy <= chars@.len(),
            up_to_separator(chars@.take(end as int)) == up_to_separator(chars@.take(tidy as int)),
        decreases end,
    {
        proof {
            assert(chars@.take(end as int).drop_last() =~= chars@.take(end - 1));
        }
        end -= 1;
    }
    let len: usize = tidy_len(&chars, end);
    let mut dir: String = String::new();
    let mut k: usize = 0;
    while k < len
        invariant
            k <= len <= chars@.len(),
            dir@ == chars@.take(k as int),
        decreases len - k,
    {
        dir.push(chars[k]);
        proof {
            assert(dir@ =~= chars@.take(k + 1));
        }
        k += 1;
    }
    Some(dir)
}

/// Whether a path ends in a separator.
fn ends_in_separator(path: &str) -> (yes: bool)
    ensures
        yes == (path@.len() > 0 && path@.last() == '/'),
{
    let len: usize = path.unicode_len();
    len > 0 && path.get_char(len - 1) == '/'
}

/// The path `base` extended by the relative path `rest`.
fn join(base: String, rest: &str) -> (path: String)
    ensures
        path@ == joined(base@, rest@),
{
    let mut path: String = base;
    if !path.as_str().is_empty() && !ends_in_separator(path.as_str()) {
        path.append("/");
    }
    path.append(rest);
    path
}

/// The path of the configuration file: `iswitch/config.toml` under
/// `XDG_CONFIG_HOME`, else under `.config` in `HOME`, else under the current
/// directory.
pub fn config_path(env: &Environment) -> (path: String)
    ensures
        path@ == config_file(env@),
{
    let base: String = match &env.xdg_config_home {
        Some(dir) => dir.clone(),
        None => match &env.home {
            Some(home) => join(home.clone(), ".config"),
            None => ".".to_owned(),
        },
    };
    join(base, "iswitch/config.toml")
}

/// The path of the log file where the configuration names none:
/// `/iswitch/iswitch.log` put behind `XDG_CONFIG_HOME`, else behind `.config` in
/// `HOME`, else behind the current directory.
pub fn default_log_path(env: &Environment) -> (path: String)
    ensures
        path@ == log_file(env@),
{
    let mut path: String = match &env.xdg_config_home {
        Some(dir) => dir.clone(),
        None => match &env.home {
            Some(home) => {
                let mut base: String = home.clone();
                base.append("/.config");
                base
            },
            None => ".".to_owned(),
        },
    };
    path.append("/iswitch/iswitch.log");
    path
}

/// A path with each row of separators made one; it names what the path names.
pub open spec fn collapsed(path: Seq<char>) -> Seq<char>
    decreases path.len(),
{
    if path.len() == 0 {
        Seq::empty()
    } else {
        let front = collapsed(path.drop_last());
        if path.last() == '/' && path.len() > 1 && path[path.len() - 2] == '/' {
            front
        } else {
            front.push(path.last())
        }
    }
}

/// No two separators of `path` stand side by side.
pub open spec fn single_separators(path: Seq<char>) -> bool {
    forall|i: int| 0 < i < path.len() ==> !(#[trigger] path[i] == '/' && path[i - 1] == '/')
}

/// Putting a path with single separators behind another adds it to what the other
/// is with single separators, less a first separator that would be a second one.
proof fn collapsed_append(base: Seq<char>, rest: Seq<char>)
    requires
        base.len() > 0,
        rest.len() > 0,
        single_separators(rest),
    ensures
        collapsed(base + rest) == collapsed(base) + (if rest[0] == '/' && base.last() == '/' {
            rest.skip(1)
        } else {
            rest
        }),
    decreases rest.len(),
{
    let path = base + rest;
    let front = rest.drop_last();
    assert(path.drop_last() =~= base + front);
    assert(path.last() == rest.last());
    if front.len() == 0 {
        assert(base + front =~= base);
        assert(path[path.len() - 2] == base.last());
        assert(collapsed(base).push(rest[0]) =~= collapsed(base) + rest);
        assert(collapsed(base) + rest.skip(1) =~= collapsed(base));
    } else {
        assert forall|i: int| 0 < i < front.len() implies !(#[trigger] front[i] == '/' && front[i
            - 1] == '/') by {
            assert(rest[i] == front[i] && rest[i - 1] == front[i - 1]);
        }
        collapsed_append(base, front);
        assert(path[path.len() - 2] == rest[rest.len() - 2]);
        assert(!(rest[rest.len() - 1] == '/' && rest[rest.len() - 1 - 1] == '/'));
        assert((collapsed(base) + front).push(rest.last()) =~= collapsed(base) + rest);
        assert((collapsed(base) + front.skip(1)).push(rest.last()) =~= collapsed(base) + rest.skip(
            1,
        ));
    }
}

/// Where `XDG_CONFIG_HOME` names a directory, the configuration file is
/// `iswitch/config.toml` in it, whatever `HOME` holds.
pub proof fn law_config_file_is_in_xdg_config_home(dir: Seq<char>, home: Option<Seq<char>>)
    requires
        dir.len() > 0,
    ensures
        ({
            let path = config_file(EnvironmentView { xdg_config_home: Some(dir), home });
            &&& collapsed(path) == collapsed(dir + "/iswitch/config.toml"@)
            &&& dir.last() != '/' ==> path == dir + "/iswitch/config.toml"@
            &&& dir.last() == '/' ==> path == dir + "iswitch/config.toml"@
        }),
{
    reveal_strlit("/");
    reveal_strlit("iswitch/config.toml");
    reveal_strlit("/iswitch/config.toml");
    assert(dir + "/"@ + "iswitch/config.toml"@ =~= dir + "/iswitch/config.toml"@);
    assert("/iswitch/config.toml"@.skip(1) =~= "iswitch/config.toml"@);
    collapsed_append(dir, "/iswitch/config.toml"@);
    collapsed_append(dir, "iswitch/config.toml"@);
}

/// The configuration file and the log file have one directory, unless the directory
/// that the environment names is empty. Rows of separators count as one.
pub proof fn law_files_share_a_directory(env: EnvironmentView)
    requires
        env.xdg_config_home matches Some(dir) ==> dir.len() > 0,
        env.xdg_config_home is None ==> (env.home matches Some(home) ==> home.len() > 0),
    ensures
        exists|dir: Seq<char>| #[trigger]
            (dir + "/config.toml"@) == collapsed(config_file(env)) && collapsed(log_file(env))
                == dir + "/iswitch.log"@,
{
    reveal_strlit("/");
    reveal_strlit(".");
    reveal_strlit(".config");
    reveal_strlit("/.config");
    reveal_strlit("iswitch");
    reveal_strlit("/iswitch");
    reveal_strlit("iswitch/config.toml");
    reveal_strlit("/iswitch/config.toml");
    reveal_strlit("/config.toml");
    reveal_strlit("/iswitch/iswitch.log");
    reveal_strlit("/iswitch.log");
    // The directories that the two paths are put under.
    let config_base = match env.xdg_config_home {
        Some(dir) => dir,
        None => match env.home {
            Some(home) => joined(home, ".config"@),
            None => "."@,
        },
    };
    let log_base = match env.xdg_config_home {
        Some(dir) => dir,
        None => match env.home {
            Some(home) => home + "/.config"@,
            None => "."@,
        },
    };
    assert(collapsed(config_base) == collapsed(log_base)) by {
        if env.xdg_config_home is None {
            if let Some(home) = env.home {
                assert("/.config"@.skip(1) =~= ".config"@);
                assert(home + "/"@ + ".config"@ =~= home + "/.config"@);
                collapsed_append(home, "/.config"@);
                collapsed_append(home, ".config"@);
            }
        }
    }
    assert(config_base.len() > 0 && config_base.last() == log_base.last());
    let tail = if log_base.last() == '/' {
        "iswitch"@
    } else {
        "/iswitch"@
    };
    let dir = collapsed(log_base) + tail;
    assert(config_base + "/"@ + "iswitch/config.toml"@ =~= config_base + "/iswitch/config.toml"@);
    collapsed_append(config_base, "/iswitch/config.toml"@);
    collapsed_append(config_base, "iswitch/config.toml"@);
    collapsed_append(log_base, "/iswitch/iswitch.log"@);
    if log_base.last() == '/' {
        assert(collapsed(log_base) + "iswitch/config.toml"@ =~= dir + "/config.toml"@);
        assert(collapsed(log_base) + "/iswitch/iswitch.log"@.skip(1) =~= dir + "/iswitch.log"@);
    } else {
        assert(collapsed(log_base) + "/iswitch/config.toml"@ =~= dir + "/config.toml"@);
        assert(collapsed(log_base) + "/iswitch/iswitch.log"@ =~= dir + "/iswitch.log"@);
    }
    assert((dir + "/config.toml"@) == collapsed(config_file(env)));
}

/// The directory of a file in a directory is that directory.
pub proof fn law_the_directory_of_a_file(dir: Seq<char>, name: Seq<char>)
    requires
        dir.len() > 0,
        name.len() > 0,
        !name.contains('/'),
        name != seq!['.'],
    ensures
        parent_dir(dir + seq!['/'] + name) == Some(tidy_end(dir)),
{
    let path = dir + seq!['/'] + name;
    assert forall|i: int| 0 <= i < name.len() implies name[i] != '/' by {
        assert(name.contains(name[i]));
    }
    assert(path.last() == name.last());
    assert(path.len() > 1);
    if name.len() == 1 {
        assert(name =~= seq![name[0]]);
        assert(path.last() != '.');
    } else {
        assert(path[path.len() - 2] == name[name.len() - 2]);
    }
    assert(tidy_end(path) == path);
    assert(path.len() > seq!['/'].len());
    separator_before_a_name(dir + seq!['/'], name);
    assert((dir + seq!['/']).drop_last() =~= dir);
}

/// What stands before a name without separators reaches up to the last separator.
proof fn separator_before_a_name(before: Seq<char>, name: Seq<char>)
    requires
        before.len() > 0,
        before.last() == '/',
        forall|i: int| 0 <= i < name.len() ==> name[i] != '/',
    ensures
        up_to_separator(before + name) == before,
    decreases name.len(),
{
    if name.len() == 0 {
        assert(before + name =~= before);
    } else {
        assert((before + name).drop_last() =~= before + name.drop_last());
        assert((before + name).last() == name.last());
        separator_before_a_name(before, name.drop_last());
    }
}

/// Where `XDG_CONFIG_HOME` names a directory, the directory of the configuration
/// file is `iswitch` in it.
pub proof fn law_the_directory_of_the_config_file(dir: Seq<char>, home: Option<Seq<char>>)
    requires
        dir.len() > 0,
    ensures
        parent_dir(config_file(EnvironmentView { xdg_config_home: Some(dir), home })) == Some(
            joined(dir, "iswitch"@),
        ),
{
    reveal_strlit("/");
    reveal_strlit("iswitch");
    reveal_strlit("iswitch/config.toml");
    reveal_strlit("config.toml");
    let above = joined(dir, "iswitch"@);
    assert(config_file(EnvironmentView { xdg_config_home: Some(dir), home }) =~= above + seq!['/']
        + "config.toml"@);
    law_the_directory_of_a_file(above, "config.toml"@);
    assert(above.last() == 'h');
}

/// The configuration file is looked for under `XDG_CONFIG_HOME` where that is set, else
/// under `.config` in `HOME` where that is, else in the current directory.
pub proof fn law_where_the_config_file_is(env: Environment, config: String)
    requires
        call_ensures(config_path, (&env,), config),
    ensures
        env.xdg_config_home matches Some(dir) ==> {
            &&& dir@.len() == 0 ==> config@ == "iswitch/config.toml"@
            &&& dir@.len() > 0 && dir@.last() == '/' ==> config@ == dir@ + "iswitch/config.toml"@
            &&& dir@.len() > 0 && dir@.last() != '/' ==> config@ == dir@ + "/iswitch/config.toml"@
        },
        env.xdg_config_home is None ==> (env.home matches Some(home) ==> {
            &&& home@.len() == 0 || home@.last() == '/' ==> config@ == home@
                + ".config/iswitch/config.toml"@
            &&& home@.len() > 0 && home@.last() != '/' ==> config@ == home@
                + "/.config/iswitch/config.toml"@
        }),
        env.xdg_config_home is None && env.home is None ==> config@ == "./iswitch/config.toml"@,
{
    reveal_strlit("/");
    reveal_strlit(".");
    reveal_strlit(".config");
    reveal_strlit("iswitch/config.toml");
    reveal_strlit("/iswitch/config.toml");
    reveal_strlit("./iswitch/config.toml");
    reveal_strlit(".config/iswitch/config.toml");
    reveal_strlit("/.config/iswitch/config.toml");
    if let Some(dir) = env.xdg_config_home {
        assert(dir@.len() == 0 ==> config@ =~= "iswitch/config.toml"@);
        assert(dir@.len() > 0 && dir@.last() != '/' ==> config@ =~= dir@ + "/iswitch/config.toml"@);
    } else if let Some(home) = env.home {
        assert(home@.len() == 0 || home@.last() == '/' ==> config@ =~= home@
            + ".config/iswitch/config.toml"@);
        assert(home@.len() > 0 && home@.last() != '/' ==> config@ =~= home@
            + "/.config/iswitch/config.toml"@);
    } else {
        assert(config@ =~= "./iswitch/config.toml"@);
    }
}

/// The log file is put behind `XDG_CONFIG_HOME` where that is set, else behind `.config`
/// in `HOME` where that is, else behind the current directory.
pub proof fn law_where_the_log_file_is(env: Environment, log: String)
    requires
        call_ensures(default_log_path, (&env,), log),
    ensures
        log@ == log_file(env@),
        env.xdg_config_home matches Some(dir) ==> log@ == dir@ + "/iswitch/iswitch.log"@,
        env.xdg_config_home is None ==> (env.home matches Some(home) ==> log@ == home@
            + "/.config/iswitch/iswitch.log"@),
        env.xdg_config_home is None && env.home is None ==> log@ == "./iswitch/iswitch.log"@,
{
    reveal_strlit(".");
    reveal_strlit("/.config");
    reveal_strlit("/iswitch/iswitch.log");
    reveal_strlit("./iswitch/iswitch.log");
    reveal_strlit("/.config/iswitch/iswitch.log");
    if env.xdg_config_home is None {
        if let Some(home) = env.home {
            assert(log@ =~= home@ + "/.config/iswitch/iswitch.log"@);
        } else {
            assert(log@ =~= "./iswitch/iswitch.log"@);
        }
    }
}

/// What stands for nothing at the end of a path does not matter: a separator, and a
/// step that stays in the directory. Any other path is its own tidy form.
pub proof fn law_nothing_at_the_end_does_not_matter(path: Seq<char>)
    ensures
        path.len() > 0 ==> tidy_end(path + seq!['/']) == tidy_end(path),
        path.len() > 0 ==> tidy_end(path + seq!['/', '.']) == tidy_end(path),
        tidy_end(seq!['/', '.']) == seq!['/'],
        path.len() <= 1 ==> tidy_end(path) == path,
        path.len() > 1 && path.last() != '/' && path.last() != '.' ==> tidy_end(path) == path,
        path.len() > 1 && path.last() == '.' && path[path.len() - 2] != '/' ==> tidy_end(path)
            == path,
        path.len() > 0 ==> parent_dir(path + seq!['/']) == parent_dir(path),
        path.len() > 0 ==> parent_dir(path + seq!['/', '.']) == parent_dir(path),
{
    let one = path + seq!['/'];
    let two = path + seq!['/', '.'];
    assert(one.drop_last() =~= path);
    assert(two.drop_last() =~= one);
    let root = seq!['/', '.'];
    assert(root.drop_last() =~= seq!['/']);
    assert(tidy_end(root.drop_last()) == seq!['/']);
}

/// The root and the empty path have no directory; that of a single name is the empty
/// path, and that of a name in the root is the root.
pub proof fn law_the_directory_of_a_name(name: Seq<char>)
    requires
        name.len() > 0,
        !name.contains('/'),
    ensures
        parent_dir(Seq::empty()) is None,
        parent_dir(seq!['/']) is None,
        parent_dir(name) == Some(Seq::<char>::empty()),
        name != seq!['.'] ==> parent_dir(seq!['/'] + name) == Some(seq!['/']),
{
    assert forall|i: int| 0 <= i < name.len() implies name[i] != '/' by {
        assert(name.contains(name[i]));
    }
    assert(name[0] != '/');
    assert(tidy_end(name) == name);
    no_separator_at_all(name);
    assert(name != seq!['/']);
    assert(tidy_end(Seq::<char>::empty()) =~= Seq::<char>::empty());
    let path = seq!['/'] + name;
    assert(path.last() == name.last());
    if name.len() == 1 {
        assert(name =~= seq![name[0]]);
    } else {
        assert(path[path.len() - 2] == name[name.len() - 2]);
    }
    if name != seq!['.'] {
        assert(tidy_end(path) == path);
        separator_before_a_name(seq!['/'], name);
        assert(path.len() > 1);
    }
}

/// The directory that is found for a path is the path's, and none is found exactly where
/// nothing but separators and steps that stay stands in it.
pub proof fn law_the_found_directory_is_the_paths(path: &str, dir: Option<String>)
    requires
        call_ensures(parent, (path,), dir),
    ensures
        dir matches Some(d) ==> parent_dir(path@) == Some(d@),
        dir is None <==> parent_dir(path@) is None,
        dir is None <==> tidy_end(path@).len() == 0 || tidy_end(path@) == seq!['/'],
{
}

/// Without a separator there is nothing up to one.
proof fn no_separator_at_all(name: Seq<char>)
    requires
        forall|i: int| 0 <= i < name.len() ==> name[i] != '/',
    ensures
        up_to_separator(name) == Seq::<char>::empty(),
    decreases name.len(),
{
    if name.len() > 0 {
        no_separator_at_all(name.drop_last());
    } else {
        assert(name =~= Seq::<char>::empty());
    }
}

} // verus!
