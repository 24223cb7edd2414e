//! The settings the tool reads from its `.env` file: each one must be set
//! and not blank, the download folder may start with `~`, and the number of
//! settings is taken from `.env.sample`.

use vstd::prelude::*;
use crate::text::{trim, trim_str, has_prefix, push_char, is_white_space, lemma_trim_empty, lemma_trim_bounds};

verus! {

/// The variable that holds the GitHub token.
pub const TOKEN_VAR: &'static str = "GITHUB_TOKEN";
/// The variable that holds the download folder.
pub const PATH_VAR: &'static str = "DL_FOLDER_PATH";
/// The variable that holds the organisation to back up.
pub const ORG_VAR: &'static str = "ORGANIZATION_TO_FETCH";
/// The number of settings assumed when `.env.sample` cannot be read.
pub const DEFAULT_VAR_COUNT: usize = 3;

/// What the process environment held when the settings were read.
#[derive(Debug)]
pub struct EnvSnapshot {
    /// Whether the `.env` file exists.
    pub env_file_found: bool,
    /// The error met while loading `.env`, if any.
    pub dotenv_error: Option<String>,
    /// The value of `GITHUB_TOKEN`, if set.
    pub github_token: Option<String>,
    /// The value of `DL_FOLDER_PATH`, if set.
    pub dl_folder_path: Option<String>,
    /// The value of `ORGANIZATION_TO_FETCH`, if set.
    pub organization: Option<String>,
    /// The value of `HOME`, if set.
    pub home: Option<String>,
    /// The contents of `.env.sample`, if it could be read.
    pub sample: Option<String>,
}

/// The message for a variable that is not set.
pub open spec fn unset_message(name: Seq<char>) -> Seq<char> {
    "❌ "@ + name + " non défini dans .env"@
}

/// The message for a variable that is blank.
pub open spec fn blank_message(name: Seq<char>) -> Seq<char> {
    "❌ "@ + name + " vide dans .env"@
}

/// The outcome of reading one variable: its value when it is set and not
/// blank, otherwise the message that explains why not.
pub open spec fn env_var_result(name: Seq<char>, value: Option<String>) -> Result<Seq<char>, Seq<char>> {
    match value {
        None => Err(unset_message(name)),
        Some(v) => if trim(v@).len() == 0 { Err(blank_message(name)) } else { Ok(v@) },
    }
}

/// Setting law: a variable that is not set is refused as undefined; a set
/// value that holds one character that is not white space is accepted
/// exactly as it was written, spaces inside it and around it included; a
/// value made only of white space is refused as blank.
pub proof fn lemma_env_var_accepts(name: Seq<char>, value: Option<String>)
    ensures
        value is None ==> env_var_result(name, value) == Err::<Seq<char>, Seq<char>>("❌ "@ + name + " non défini dans .env"@),
        value matches Some(v) ==> ((exists|i: int| 0 <= i < v@.len() && !is_white_space(#[trigger] v@[i]))
            ==> env_var_result(name, value) == Ok::<Seq<char>, Seq<char>>(v@)),
        value matches Some(v) ==> ((forall|i: int| 0 <= i < v@.len() ==> is_white_space(#[trigger] v@[i]))
            ==> env_var_result(name, value) == Err::<Seq<char>, Seq<char>>("❌ "@ + name + " vide dans .env"@)),
{
    if let Some(v) = value {
        lemma_trim_empty(v@);
    }
}

/// Checks the value read for the variable `var_name`: it must be set and
/// hold more than white space.
pub fn get_env_var(var_name: &str, value: Option<String>) -> (res: Result<String, String>)
    ensures
        match (res, env_var_result(var_name@, value)) {
            (Ok(v), Ok(w)) => v@ == w,
            (Err(m), Err(w)) => m@ == w,
            _ => false,
        },
        value is None ==> (res matches Err(m) && m@ == "❌ "@ + var_name@ + " non défini dans .env"@),
        value matches Some(v) ==> ((exists|i: int| 0 <= i < v@.len() && !is_white_space(#[trigger] v@[i]))
            ==> res == Ok::<String, String>(v)),
        value matches Some(v) ==> ((forall|i: int| 0 <= i < v@.len() ==> is_white_space(#[trigger] v@[i]))
            ==> (res matches Err(m) && m@ == "❌ "@ + var_name@ + " vide dans .env"@)),
{
    proof {
        lemma_env_var_accepts(var_name@, value);
    }
    match value {
        None => {
            let mut m = String::from_str("❌ ");
            m.append(var_name);
            m.append(" non défini dans .env");
            Err(m)
        },
        Some(v) => {
            let t = trim_str(v.as_str());
            if t.as_str().unicode_len() == 0 {
                let mut m = String::from_str("❌ ");
                m.append(var_name);
                m.append(" vide dans .env");
                Err(m)
            } else {
                Ok(v)
            }
        },
    }
}

/// The message for a `~` path when `HOME` is not set.
pub open spec fn no_home_message() -> Seq<char> {
    "❌ Variable HOME introuvable"@
}

/// The path with a leading `~` replaced by the home directory: `~/rest`
/// becomes `home/rest`, `~` alone becomes `home`, any other path stays.
pub open spec fn tilde_result(path: Seq<char>, home: Option<String>) -> Result<Seq<char>, Seq<char>> {
    if has_prefix(path, seq!['~', '/']) || path == seq!['~'] {
        match home {
            None => Err(no_home_message()),
            Some(h) => Ok(h@ + path.skip(1)),
        }
    } else {
        Ok(path)
    }
}

/// Tilde law: only a path that starts with `~/` or is `~` alone is
/// expanded, by putting the home directory in place of the `~`; it fails
/// only when the home directory is unknown.  Every other path, relative or
/// absolute, is kept exactly as written, whatever the home directory is.
pub proof fn lemma_tilde(path: Seq<char>, home: Option<String>)
    ensures
        !(path.len() >= 2 && path[0] == '~' && path[1] == '/') && !(path.len() == 1 && path[0] == '~')
            ==> tilde_result(path, home) == Ok::<Seq<char>, Seq<char>>(path),
        (path.len() >= 2 && path[0] == '~' && path[1] == '/') || (path.len() == 1 && path[0] == '~')
            ==> match home {
                Some(h) => tilde_result(path, home) == Ok::<Seq<char>, Seq<char>>(h@ + path.subrange(1, path.len() as int)),
                None => tilde_result(path, home) == Err::<Seq<char>, Seq<char>>("❌ Variable HOME introuvable"@),
            },
{
    if path.len() >= 2 {
        assert(has_prefix(path, seq!['~', '/']) == (path[0] == '~' && path[1] == '/')) by {
            if path[0] == '~' && path[1] == '/' {
                assert(path.subrange(0, 2) =~= seq!['~', '/']);
            }
            if has_prefix(path, seq!['~', '/']) {
                assert(path.subrange(0, 2)[0] == path[0]);
                assert(path.subrange(0, 2)[1] == path[1]);
            }
        }
        assert(path != seq!['~']) by {
            assert(seq!['~'].len() == 1);
        }
    } else {
        assert(!has_prefix(path, seq!['~', '/']));
        if path.len() == 1 && path[0] == '~' {
            assert(path =~= seq!['~']);
        }
        if path == seq!['~'] {
            assert(path.len() == 1 && path[0] == '~');
        }
    }
    assert(path.skip(1) =~= path.subrange(1, path.len() as int));
}

/// Expands a leading `~` of `path` into the home directory `home`.
pub fn expand_tilde(path: &str, home: Option<String>) -> (res: Result<String, String>)
    ensures
        match (res, tilde_result(path@, home)) {
            (Ok(v), Ok(w)) => v@ == w,
            (Err(m), Err(w)) => m@ == w,
            _ => false,
        },
        !(path@.len() >= 2 && path@[0] == '~' && path@[1] == '/') && !(path@.len() == 1 && path@[0] == '~')
            ==> (res matches Ok(r) && r@ == path@),
        (path@.len() >= 2 && path@[0] == '~' && path@[1] == '/') || (path@.len() == 1 && path@[0] == '~')
            ==> match home {
                Some(h) => res matches Ok(r) && r@ == h@ + path@.subrange(1, path@.len() as int),
                None => res matches Err(m) && m@ == "❌ Variable HOME introuvable"@,
            },
{
    proof {
        lemma_tilde(path@, home);
    }
    let n = path.unicode_len();
    let tilde_slash = n >= 2 && path.get_char(0) == '~' && path.get_char(1) == '/';
    let tilde_only = n == 1 && path.get_char(0) == '~';
    proof {
        if n >= 2 {
            assert(tilde_slash == (path@.subrange(0, 2) =~= seq!['~', '/']));
        }
        if n == 1 {
            assert(tilde_only == (path@ =~= seq!['~']));
        }
    }
    if tilde_slash || tilde_only {
        match home {
            None => Err(String::from_str("❌ Variable HOME introuvable")),
            Some(h) => {
                let rest = path.substring_char(1, n);
                let mut s = h;
                s.append(rest);
                Ok(s)
            },
        }
    } else {
        Ok(String::from_str(path))
    }
}

/// The lines of `s`: the pieces between line breaks, the last one included
/// even when empty.
pub open spec fn segments(s: Seq<char>) -> Seq<Seq<char>>
    decreases s.len(),
{
    if s.len() == 0 {
        seq![Seq::<char>::empty()]
    } else {
        let p = segments(s.drop_last());
        if s.last() == '\n' {
            p.push(Seq::<char>::empty())
        } else {
            p.update(p.len() - 1, p.last().push(s.last()))
        }
    }
}

/// A line that sets a variable: not blank, not a `#` comment, with a `=`.
pub open spec fn is_setting_line(line: Seq<char>) -> bool {
    let t = trim(line);
    &&& t.len() > 0
    &&& t[0] != '#'
    &&& t.contains('=')
}

/// The number of lines of `lines` that set a variable.
pub open spec fn count_settings(lines: Seq<Seq<char>>) -> nat
    decreases lines.len(),
{
    if lines.len() == 0 {
        0
    } else {
        count_settings(lines.drop_last()) + if is_setting_line(lines.last()) { 1nat } else { 0nat }
    }
}

/// The number of variables a sample file declares.  Counting over the
/// pieces between line breaks gives the count over `str::lines`: the
/// carriage return that `lines` strips is white space, and the empty piece
/// after a final line break is never a setting.
pub open spec fn sample_var_count(sample: Option<String>) -> nat {
    match sample {
        None => DEFAULT_VAR_COUNT as nat,
        Some(content) => count_settings(segments(content@)),
    }
}

proof fn lemma_segments_nonempty(s: Seq<char>)
    ensures
        segments(s).len() >= 1,
    decreases s.len(),
{
    if s.len() > 0 {
        lemma_segments_nonempty(s.drop_last());
    }
}

/// Setting line law: a line declares a variable exactly when its first
/// character that is not white space exists and is not `#`, and the line
/// holds a `=` somewhere.  A `#` anywhere after that first character, a
/// value with spaces, or white space around the line changes nothing.
pub proof fn lemma_setting_line(line: Seq<char>)
    ensures
        is_setting_line(line) == ((exists|a: int| 0 <= a < line.len() && !is_white_space(line[a]) && line[a] != '#'
            && (forall|j: int| 0 <= j < a ==> is_white_space(#[trigger] line[j])))
            && (exists|k: int| 0 <= k < line.len() && #[trigger] line[k] == '=')),
{
    let ab = lemma_trim_bounds(line);
    let a = ab.0;
    let b = ab.1;
    let t = trim(line);
    assert(!is_white_space('='));
    let first_ok = exists|a2: int| 0 <= a2 < line.len() && !is_white_space(line[a2]) && line[a2] != '#'
        && (forall|j: int| 0 <= j < a2 ==> is_white_space(#[trigger] line[j]));
    let has_eq = exists|k: int| 0 <= k < line.len() && #[trigger] line[k] == '=';
    if a < b {
        assert(t[0] == line[a]);
        if first_ok {
            let a2 = choose|a2: int| 0 <= a2 < line.len() && !is_white_space(line[a2]) && line[a2] != '#'
                && (forall|j: int| 0 <= j < a2 ==> is_white_space(#[trigger] line[j]));
            if a2 < a {
                assert(is_white_space(line[a2]));
            }
            if a2 > a {
                assert(is_white_space(line[a]));
            }
            assert(a2 == a);
        }
        if line[a] != '#' {
            assert(first_ok);
        }
        if has_eq {
            let k = choose|k: int| 0 <= k < line.len() && #[trigger] line[k] == '=';
            if k < a {
                assert(is_white_space(line[k]));
            }
            if k >= b {
                assert(is_white_space(line[k]));
            }
            assert(t[k - a] == '=');
            assert(t.contains('='));
        }
        if t.contains('=') {
            let k = choose|k: int| 0 <= k < t.len() && t[k] == '=';
            assert(line[k + a] == '=');
            assert(has_eq);
        }
    } else {
        assert(t.len() == 0);
        if first_ok {
            let a2 = choose|a2: int| 0 <= a2 < line.len() && !is_white_space(line[a2]) && line[a2] != '#'
                && (forall|j: int| 0 <= j < a2 ==> is_white_space(#[trigger] line[j]));
            assert(is_white_space(line[a2]));
        }
    }
}

/// Whether one line sets a variable.
pub fn is_setting(line: &str) -> (res: bool)
    ensures
        res == is_setting_line(line@),
        res == ((exists|a: int| 0 <= a < line@.len() && !is_white_space(line@[a]) && line@[a] != '#'
            && (forall|j: int| 0 <= j < a ==> is_white_space(#[trigger] line@[j])))
            && (exists|k: int| 0 <= k < line@.len() && #[trigger] line@[k] == '=')),
{
    proof {
        lemma_setting_line(line@);
    }
    let t = trim_str(line);
    let ts = t.as_str();
    let n = ts.unicode_len();
    if n == 0 {
        return false;
    }
    if ts.get_char(0) == '#' {
        return false;
    }
    let mut i: usize = 0;
    while i < n
        invariant
            n == ts@.len(),
            ts@ == trim(line@),
            n > 0,
            ts@[0] != '#',
            i <= n,
            forall|k: int| 0 <= k < i ==> ts@[k] != '=',
        decreases n - i,
    {
        if ts.get_char(i) == '=' {
            assert(ts@[i as int] == '=');
            assert(ts@.contains('='));
            proof {
                lemma_setting_line(line@);
            }
            return true;
        }
        i = i + 1;
    }
    false
}

/// Counts the variables that the contents of `.env.sample` declare, or
/// gives the default when the file could not be read.
pub fn count_env_variables(sample: Option<String>) -> (res: usize)
    ensures
        res == sample_var_count(sample),
{
    match sample {
        None => DEFAULT_VAR_COUNT,
        Some(content) => {
            let cs = content.as_str();
            let n = cs.unicode_len();
            let mut cur = String::new();
            let mut count: usize = 0;
            let mut i: usize = 0;
            proof {
                assert(cs@.take(0) =~= Seq::<char>::empty());
            }
            while i < n
                invariant
                    n == cs@.len(),
                    i <= n,
                    segments(cs@.take(i as int)).len() >= 1,
                    segments(cs@.take(i as int)).last() == cur@,
                    count == count_settings(segments(cs@.take(i as int)).drop_last()),
                    count + cur@.len() <= i,
                decreases n - i,
            {
                let c = cs.get_char(i);
                let ghost before = segments(cs@.take(i as int));
                proof {
                    assert(cs@.take(i + 1).drop_last() =~= cs@.take(i as int));
                    assert(cs@.take(i + 1).last() == c);
                    lemma_segments_nonempty(cs@.take(i + 1));
                }
                if c == '\n' {
                    let ok = is_setting(cur.as_str());
                    if ok {
                        count = count + 1;
                    }
                    proof {
                        let after = segments(cs@.take(i + 1));
                        assert(after == before.push(Seq::<char>::empty()));
                        assert(after.drop_last() =~= before);
                        assert(before.drop_last().push(before.last()) =~= before);
                    }
                    cur = String::new();
                } else {
                    push_char(&mut cur, c);
                    proof {
                        let after = segments(cs@.take(i + 1));
                        assert(after.drop_last() =~= before.drop_last());
                    }
                }
                i = i + 1;
            }
            proof {
                assert(cs@.take(n as int) =~= cs@);
                let segs = segments(cs@);
                assert(segs.drop_last().push(segs.last()) =~= segs);
            }
            if is_setting(cur.as_str()) {
                assert(cur@.len() > 0);
                count = count + 1;
            }
            count
        },
    }
}

/// What the settings resolve to: the token, the download folder with its
/// `~` expanded, the organisation and the number of declared variables.
pub open spec fn load_result(env: EnvSnapshot) -> Result<(Seq<char>, Seq<char>, Seq<char>, nat), Seq<char>> {
    if !env.env_file_found {
        Err("❌ Fichier .env manquant\nCréez un .env avec : GITHUB_TOKEN, DL_FOLDER_PATH, ORGANIZATION_TO_FETCH"@)
    } else if env.dotenv_error is Some {
        Err("❌ Erreur chargement .env : "@ + env.dotenv_error->Some_0@)
    } else {
        match env_var_result("GITHUB_TOKEN"@, env.github_token) {
            Err(m) => Err(m),
            Ok(token) => match env_var_result("DL_FOLDER_PATH"@, env.dl_folder_path) {
                Err(m) => Err(m),
                Ok(raw_path) => match tilde_result(raw_path, env.home) {
                    Err(m) => Err(m),
                    Ok(path) => match env_var_result("ORGANIZATION_TO_FETCH"@, env.organization) {
                        Err(m) => Err(m),
                        Ok(org) => Ok((token, path, org, sample_var_count(env.sample))),
                    },
                },
            },
        }
    }
}

/// Resolves the settings from what the environment held, checking them in
/// the order the tool reads them; the first problem found is the error.
pub fn load_vars(env: EnvSnapshot) -> (res: Result<(String, String, String, usize), String>)
    ensures
        match (res, load_result(env)) {
            (Ok((t, p, o, c)), Ok((t2, p2, o2, c2))) => t@ == t2 && p@ == p2 && o@ == o2 && c == c2,
            (Err(m), Err(m2)) => m@ == m2,
            _ => false,
        },
{
    let ghost env0 = env;
    if !env.env_file_found {
        return Err(String::from_str(
            "❌ Fichier .env manquant\nCréez un .env avec : GITHUB_TOKEN, DL_FOLDER_PATH, ORGANIZATION_TO_FETCH",
        ));
    }
    let EnvSnapshot { env_file_found, dotenv_error, github_token, dl_folder_path, organization, home, sample } = env;
    if let Some(e) = dotenv_error {
        let mut m = String::from_str("❌ Erreur chargement .env : ");
        m.append(e.as_str());
        return Err(m);
    }
    let token = match get_env_var("GITHUB_TOKEN", github_token) {
        Ok(t) => t,
        Err(m) => return Err(m),
    };
    let raw_path = match get_env_var("DL_FOLDER_PATH", dl_folder_path) {
        Ok(p) => p,
        Err(m) => return Err(m),
    };
    let path = match expand_tilde(raw_path.as_str(), home) {
        Ok(p) => p,
        Err(m) => return Err(m),
    };
    let org = match get_env_var("ORGANIZATION_TO_FETCH", organization) {
        Ok(o) => o,
        Err(m) => return Err(m),
    };
    let count = count_env_variables(sample);
    Ok((token, path, org, count))
}

} // verus!
