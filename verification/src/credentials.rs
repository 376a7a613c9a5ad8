//! Secrets: where they are looked for, and how a `.env` file is read.
//!
//! Reading the environment and the files is left to the caller, which hands
//! the variable's value and the files' contents to [`load_secret`].
use vstd::prelude::*;

use crate::text::{chars_of, is_prefix, is_ws, owned, push_char, push_str, string_of, trim, trim_bounds};

verus! {

// ---------------------------------------------------------------------------
// Specification
// ---------------------------------------------------------------------------

/// `s` split at every line feed. A carriage return before a line feed stays
/// on its line; every line is trimmed before it is read, so this gives the
/// same keys as `str::lines`.
pub open spec fn split_lines(s: Seq<char>) -> Seq<Seq<char>>
    decreases s.len(),
{
    if s.len() == 0 {
        seq![seq![]]
    } else {
        let prev = split_lines(s.drop_last());
        if s.last() == '\n' {
            prev.push(seq![])
        } else {
            prev.update(prev.len() - 1, prev.last().push(s.last()))
        }
    }
}

/// A single or double quote.
pub open spec fn is_quote(c: char) -> bool {
    c == '\'' || c == '"'
}

/// `s` without leading quotes.
pub open spec fn strip_quotes_start(s: Seq<char>) -> Seq<char>
    decreases s.len(),
{
    if s.len() > 0 && is_quote(s[0]) {
        strip_quotes_start(s.drop_first())
    } else {
        s
    }
}

/// `s` without trailing quotes.
pub open spec fn strip_quotes_end(s: Seq<char>) -> Seq<char>
    decreases s.len(),
{
    if s.len() > 0 && is_quote(s.last()) {
        strip_quotes_end(s.drop_last())
    } else {
        s
    }
}

/// `s` without surrounding quotes, as `trim_matches(['\'', '"'])` gives it.
pub open spec fn strip_quotes(s: Seq<char>) -> Seq<char> {
    strip_quotes_end(strip_quotes_start(s))
}

/// The value that one line of a `.env` file gives to `name`: blank lines and
/// comments give none; a line `name=value` gives the value, trimmed and
/// unquoted, unless that is empty.
pub open spec fn line_value(line: Seq<char>, name: Seq<char>) -> Option<Seq<char>> {
    let t = trim(line);
    let p = name.push('=');
    if t.len() == 0 || t[0] == '#' {
        None
    } else if is_prefix(p, t) {
        let v = strip_quotes(trim(t.subrange(p.len() as int, t.len() as int)));
        if v.len() == 0 {
            None
        } else {
            Some(v)
        }
    } else {
        None
    }
}

/// The first value that the lines give to `name`.
pub open spec fn first_value(lines: Seq<Seq<char>>, name: Seq<char>) -> Option<Seq<char>>
    decreases lines.len(),
{
    if lines.len() == 0 {
        None
    } else {
        match line_value(lines[0], name) {
            Some(v) => Some(v),
            None => first_value(lines.drop_first(), name),
        }
    }
}

/// The value that a `.env` file's contents give to `name`.
pub open spec fn env_file_value(contents: Seq<char>, name: Seq<char>) -> Option<Seq<char>> {
    first_value(split_lines(contents), name)
}

/// `PathBuf::join` of a relative path: a separator is added unless the base
/// is empty or already ends with one.
pub open spec fn path_join(base: Seq<char>, rel: Seq<char>) -> Seq<char> {
    if base.len() == 0 || base.last() == '/' {
        base + rel
    } else {
        base + seq!['/'] + rel
    }
}

/// Items joined by a separator.
pub open spec fn join_with(items: Seq<Seq<char>>, sep: Seq<char>) -> Seq<char>
    decreases items.len(),
{
    if items.len() == 0 {
        seq![]
    } else if items.len() == 1 {
        items[0]
    } else {
        join_with(items.drop_last(), sep) + sep + items.last()
    }
}

/// A file where a secret may be configured: its path as displayed, and its
/// contents when it could be read as UTF-8.
#[derive(Clone, Debug)]
pub struct EnvCandidate {
    pub path: String,
    pub contents: Option<String>,
}

/// The value that a candidate file gives to `name`.
pub open spec fn candidate_value(c: EnvCandidate, name: Seq<char>) -> Option<Seq<char>> {
    match c.contents {
        Some(t) => env_file_value(t@, name),
        None => None,
    }
}

/// The first value that the candidate files give to `name`.
pub open spec fn first_candidate_value(cs: Seq<EnvCandidate>, name: Seq<char>) -> Option<Seq<char>>
    decreases cs.len(),
{
    if cs.len() == 0 {
        None
    } else {
        match candidate_value(cs[0], name) {
            Some(v) => Some(v),
            None => first_candidate_value(cs.drop_first(), name),
        }
    }
}

/// The displayed paths of the candidate files.
pub open spec fn candidate_paths(cs: Seq<EnvCandidate>) -> Seq<Seq<char>> {
    cs.map_values(|c: EnvCandidate| c.path@)
}

/// The message when a secret is configured nowhere.
pub open spec fn not_configured_message(name: Seq<char>, cs: Seq<EnvCandidate>) -> Seq<char> {
    name + " is not configured. Set it in the environment or in one of: "@ + join_with(
        candidate_paths(cs),
        ", "@,
    )
}

/// The secret `name` as it is resolved: the environment variable, trimmed,
/// when it is set and not blank; else the first value that a candidate file
/// gives; else an error that lists the files searched.
pub open spec fn secret_of(name: Seq<char>, env: Option<Seq<char>>, cs: Seq<EnvCandidate>) -> Result<Seq<char>, Seq<char>> {
    if env matches Some(v) && trim(v).len() > 0 {
        Ok(trim(env->0))
    } else {
        match first_candidate_value(cs, name) {
            Some(v) => Ok(v),
            None => Err(not_configured_message(name, cs)),
        }
    }
}

// ---------------------------------------------------------------------------
// Executable functions
// ---------------------------------------------------------------------------

proof fn lemma_split_lines_nonempty(s: Seq<char>)
    ensures
        split_lines(s).len() >= 1,
    decreases s.len(),
{
    if s.len() > 0 {
        lemma_split_lines_nonempty(s.drop_last());
    }
}

/// Splits text at every line feed.
fn split_lines_exec(v: &[char]) -> (lines: Vec<Vec<char>>)
    ensures
        lines@.len() == split_lines(v@).len(),
        forall|i: int| 0 <= i < lines@.len() ==> #[trigger] lines@[i]@ == split_lines(v@)[i],
{
    let mut lines: Vec<Vec<char>> = Vec::new();
    let mut current: Vec<char> = Vec::new();
    let mut i: usize = 0;
    proof {
        assert(v@.subrange(0, 0) =~= Seq::<char>::empty());
    }
    while i < v.len()
        invariant
            i <= v@.len(),
            lines@.len() + 1 == split_lines(v@.subrange(0, i as int)).len(),
            forall|k: int| 0 <= k < lines@.len() ==> #[trigger] lines@[k]@ == split_lines(
                v@.subrange(0, i as int),
            )[k],
            current@ == split_lines(v@.subrange(0, i as int)).last(),
        decreases v.len() - i,
    {
        let c = v[i];
        proof {
            let p = v@.subrange(0, i + 1);
            assert(p.drop_last() == v@.subrange(0, i as int));
            assert(p.last() == c);
            lemma_split_lines_nonempty(v@.subrange(0, i as int));
        }
        if c == '\n' {
            lines.push(current);
            current = Vec::new();
        } else {
            current.push(c);
        }
        i += 1;
    }
    proof {
        assert(v@.subrange(0, v@.len() as int) == v@);
        lemma_split_lines_nonempty(v@);
    }
    lines.push(current);
    lines
}

proof fn lemma_strip_start_skip(s: Seq<char>, i: int)
    requires
        0 <= i <= s.len(),
        forall|k: int| 0 <= k < i ==> is_quote(#[trigger] s[k]),
    ensures
        strip_quotes_start(s) == strip_quotes_start(s.subrange(i, s.len() as int)),
    decreases i,
{
    if i > 0 {
        lemma_strip_start_skip(s, i - 1);
        let t = s.subrange(i - 1, s.len() as int);
        assert(t.drop_first() == s.subrange(i, s.len() as int));
        assert(t[0] == s[i - 1]);
    } else {
        assert(s.subrange(0, s.len() as int) == s);
    }
}

proof fn lemma_strip_end_skip(s: Seq<char>, j: int)
    requires
        0 <= j <= s.len(),
        forall|k: int| j <= k < s.len() ==> is_quote(#[trigger] s[k]),
    ensures
        strip_quotes_end(s) == strip_quotes_end(s.subrange(0, j)),
    decreases s.len() - j,
{
    if j < s.len() {
        lemma_strip_end_skip(s, j + 1);
        let t = s.subrange(0, j + 1);
        assert(t.drop_last() == s.subrange(0, j));
        assert(t.last() == s[j]);
    } else {
        assert(s.subrange(0, s.len() as int) == s);
    }
}

/// `v` without surrounding quotes.
fn strip_quotes_exec(v: &[char]) -> (r: Vec<char>)
    ensures
        r@ == strip_quotes(v@),
{
    let n = v.len();
    let mut i: usize = 0;
    while i < n && (v[i] == '\'' || v[i] == '"')
        invariant
            i <= n == v@.len(),
            forall|k: int| 0 <= k < i ==> is_quote(#[trigger] v@[k]),
        decreases n - i,
    {
        i += 1;
    }
    proof {
        lemma_strip_start_skip(v@, i as int);
        let t = v@.subrange(i as int, n as int);
        if t.len() > 0 {
            assert(t[0] == v@[i as int]);
        }
    }
    let mut j: usize = n;
    while j > i && (v[j - 1] == '\'' || v[j - 1] == '"')
        invariant
            i <= j <= n == v@.len(),
            forall|k: int| j <= k < n ==> is_quote(#[trigger] v@[k]),
        decreases j,
    {
        j -= 1;
    }
    proof {
        let t = v@.subrange(i as int, n as int);
        assert forall|k: int| (j - i) <= k < t.len() implies is_quote(#[trigger] t[k]) by {
            assert(t[k] == v@[i + k]);
        }
        lemma_strip_end_skip(t, (j - i) as int);
        let u = t.subrange(0, (j - i) as int);
        assert(u == v@.subrange(i as int, j as int));
        if u.len() > 0 {
            assert(u.last() == v@[j - 1]);
        }
    }
    let mut r: Vec<char> = Vec::new();
    let mut k = i;
    while k < j
        invariant
            i <= k <= j <= v@.len(),
            r@ == v@.subrange(i as int, k as int),
        decreases j - k,
    {
        r.push(v[k]);
        proof {
            assert(v@.subrange(i as int, k + 1) == v@.subrange(i as int, k as int).push(v@[k as int]));
        }
        k += 1;
    }
    r
}

/// The value that one line gives to a key whose characters are `p` without
/// the `=`.
fn line_value_exec(line: &[char], name: &[char]) -> (r: Option<Vec<char>>)
    ensures
        match line_value(line@, name@) {
            Some(x) => r matches Some(y) && y@ == x,
            None => r is None,
        },
{
    let (a, b) = trim_bounds(line);
    let ghost t = trim(line@);
    if a == b {
        return None;
    }
    assert(t[0] == line@[a as int]);
    if line[a] == '#' {
        return None;
    }
    let n = name.len();
    let ghost p = name@.push('=');
    if b - a <= n {
        return None;
    }
    let mut k: usize = 0;
    while k < n
        invariant
            k <= n == name@.len(),
            a + n + 1 <= b <= line@.len(),
            t == line@.subrange(a as int, b as int),
            t == trim(line@),
            p == name@.push('='),
            forall|m: int| 0 <= m < k ==> t[m] == p[m],
        decreases n - k,
    {
        if line[a + k] != name[k] {
            proof {
                assert(t.subrange(0, p.len() as int)[k as int] == t[k as int]);
                assert(t[k as int] == line@[a + k]);
                assert(p[k as int] == name@[k as int]);
            }
            return None;
        }
        k += 1;
    }
    if line[a + n] != '=' {
        proof {
            assert(t.subrange(0, p.len() as int)[n as int] == t[n as int]);
            assert(t[n as int] == line@[a + n]);
            assert(p[n as int] == '=');
        }
        return None;
    }
    proof {
        assert(t.subrange(0, p.len() as int) =~= p) by {
            assert forall|m: int| 0 <= m < p.len() implies t.subrange(0, p.len() as int)[m] == p[m] by {
                if m < n {
                } else {
                    assert(t[m] == line@[a + m]);
                }
            }
        }
    }
    let rest = &line[a + n + 1..b];
    proof {
        assert(rest@ == t.subrange(p.len() as int, t.len() as int));
    }
    let (c, d) = trim_bounds(rest);
    let inner = &rest[c..d];
    let v = strip_quotes_exec(inner);
    if v.len() == 0 {
        None
    } else {
        Some(v)
    }
}

proof fn lemma_first_value_skip(lines: Seq<Seq<char>>, name: Seq<char>, i: int)
    requires
        0 <= i <= lines.len(),
        forall|k: int| 0 <= k < i ==> line_value(#[trigger] lines[k], name) is None,
    ensures
        first_value(lines, name) == first_value(lines.subrange(i, lines.len() as int), name),
    decreases i,
{
    if i > 0 {
        lemma_first_value_skip(lines, name, i - 1);
        let t = lines.subrange(i - 1, lines.len() as int);
        assert(t.drop_first() == lines.subrange(i, lines.len() as int));
        assert(t[0] == lines[i - 1]);
    } else {
        assert(lines.subrange(0, lines.len() as int) == lines);
    }
}

/// The value that a `.env` file's contents give to `name`: the first line of
/// the form `name=value` (after trimming; comments and blank lines do not
/// count) whose value, trimmed and without surrounding quotes, is not empty.
pub fn read_env_file_key(contents: &str, name: &str) -> (r: Option<String>)
    ensures
        match env_file_value(contents@, name@) {
            Some(x) => r matches Some(y) && y@ == x,
            None => r is None,
        },
{
    let text = chars_of(contents);
    let key = chars_of(name);
    let lines = split_lines_exec(text.as_slice());
    let ghost ls = split_lines(contents@);
    let mut i: usize = 0;
    while i < lines.len()
        invariant
            i <= lines@.len() == ls.len(),
            ls == split_lines(contents@),
            key@ == name@,
            forall|k: int| 0 <= k < lines@.len() ==> #[trigger] lines@[k]@ == ls[k],
            forall|k: int| 0 <= k < i ==> line_value(#[trigger] ls[k], name@) is None,
        decreases lines.len() - i,
    {
        match line_value_exec(lines[i].as_slice(), key.as_slice()) {
            Some(v) => {
                proof {
                    lemma_first_value_skip(ls, name@, i as int);
                    let t = ls.subrange(i as int, ls.len() as int);
                    assert(t[0] == ls[i as int]);
                }
                return Some(string_of(v.as_slice(), 0, v.len()));
            },
            None => {},
        }
        i += 1;
    }
    proof {
        lemma_first_value_skip(ls, name@, ls.len() as int);
    }
    None
}

/// Joins a base directory and a relative path, as `PathBuf::join` does.
pub fn join_path(base: &str, rel: &str) -> (r: String)
    ensures
        r@ == path_join(base@, rel@),
{
    let v = chars_of(base);
    let mut r = owned(base);
    if v.len() > 0 && v[v.len() - 1] != '/' {
        push_char(&mut r, '/');
    }
    push_str(&mut r, rel);
    r
}

/// The repository's `.env` files, given the crate's manifest directory:
/// `<dir>/.env` and `<dir>/../.env`.
pub fn repository_env_files(manifest_dir: &str) -> (r: [String; 2])
    ensures
        r@[0]@ == path_join(manifest_dir@, ".env"@),
        r@[1]@ == path_join(manifest_dir@, "../.env"@),
{
    [join_path(manifest_dir, ".env"), join_path(manifest_dir, "../.env")]
}

/// Resolves the secret `name`: the environment variable's value (`env`),
/// trimmed, when it is set and not blank; else the first value that one of
/// the candidate files gives, in order; else an error naming every file
/// searched.
pub fn load_secret(name: &str, env: Option<String>, candidates: &Vec<EnvCandidate>) -> (r: Result<String, String>)
    ensures
        match secret_of(name@, match env { Some(v) => Some(v@), None => None }, candidates@) {
            Ok(v) => r matches Ok(s) && s@ == v,
            Err(m) => r matches Err(e) && e@ == m,
        },
{
    if let Some(v) = &env {
        let t = crate::text::trim_str(v.as_str());
        if chars_of(t.as_str()).len() > 0 {
            return Ok(t);
        }
    }
    let ghost env_blank = !(env matches Some(v) && trim(v@).len() > 0);
    assert(env_blank);
    proof {
        assert(candidates@.subrange(0, candidates@.len() as int) == candidates@);
    }
    let mut i: usize = 0;
    while i < candidates.len()
        invariant
            env_blank == !(env matches Some(v) && trim(v@).len() > 0),
            env_blank,
            i <= candidates@.len(),
            first_candidate_value(candidates@, name@) == first_candidate_value(
                candidates@.subrange(i as int, candidates@.len() as int),
                name@,
            ),
        decreases candidates.len() - i,
    {
        let ghost t = candidates@.subrange(i as int, candidates@.len() as int);
        proof {
            assert(t[0] == candidates@[i as int]);
            assert(t.drop_first() == candidates@.subrange(i + 1, candidates@.len() as int));
        }
        match &candidates[i].contents {
            Some(c) => {
                match read_env_file_key(c.as_str(), name) {
                    Some(v) => {
                        return Ok(v);
                    },
                    None => {},
                }
            },
            None => {},
        }
        i += 1;
    }
    let mut e = owned(name);
    push_str(&mut e, " is not configured. Set it in the environment or in one of: ");
    let ghost ps = candidate_paths(candidates@);
    let mut k: usize = 0;
    let ghost prefix = e@;
    while k < candidates.len()
        invariant
            k <= candidates@.len() == ps.len(),
            ps == candidate_paths(candidates@),
            e@ == prefix + join_with(ps.subrange(0, k as int), ", "@),
        decreases candidates.len() - k,
    {
        proof {
            let q = ps.subrange(0, k + 1);
            assert(q.drop_last() == ps.subrange(0, k as int));
            assert(q.last() == candidates@[k as int].path@);
            if k == 0 {
                assert(join_with(ps.subrange(0, 0), ", "@) == Seq::<char>::empty());
            }
        }
        if k > 0 {
            push_str(&mut e, ", ");
        }
        push_str(&mut e, candidates[k].path.as_str());
        proof {
            if k == 0 {
                assert(e@ == prefix + candidates@[0].path@);
            }
        }
        k += 1;
    }
    proof {
        assert(ps.subrange(0, ps.len() as int) == ps);
        assert(candidates@.subrange(candidates@.len() as int, candidates@.len() as int).len() == 0);
    }
    Err(e)
}

} // verus!
