//! Paths derived from the source archive and from the program's directory.
use vstd::prelude::*;

verus! {

/// The separator between path components.
pub open spec fn is_sep(c: char) -> bool {
    c == '/'
}

/// Index at which the last component of `p` starts: just past the last
/// separator, or 0 when there is none.
pub open spec fn name_start(p: Seq<char>) -> int
    decreases p.len(),
{
    if p.len() == 0 {
        0
    } else if is_sep(p.last()) {
        p.len() as int
    } else {
        name_start(p.drop_last())
    }
}

/// Everything up to and including the last separator.
pub open spec fn dir_part(p: Seq<char>) -> Seq<char> {
    p.subrange(0, name_start(p))
}

/// The last component of `p`.
pub open spec fn base_name(p: Seq<char>) -> Seq<char> {
    p.subrange(name_start(p), p.len() as int)
}

/// First index at or after `i` that holds a dot, or the length of `n`.
pub open spec fn dot_from(n: Seq<char>, i: int) -> int
    decreases n.len() - i,
{
    if i < 0 || i >= n.len() {
        n.len() as int
    } else if n[i] == '.' {
        i
    } else {
        dot_from(n, i + 1)
    }
}

/// A file name without its extensions: everything before the first dot
/// that does not open the name.
pub open spec fn stem_of(name: Seq<char>) -> Seq<char> {
    if name.len() == 0 {
        name
    } else {
        name.subrange(0, dot_from(name, 1))
    }
}

/// The stem of the file that `p` names.
pub open spec fn source_stem(p: Seq<char>) -> Seq<char> {
    stem_of(base_name(p))
}

/// `<dir>/<stem>_logs`: where the logs of `source` go by default.
pub open spec fn default_extract_dir_of(source: Seq<char>) -> Seq<char> {
    dir_part(source) + source_stem(source) + "_logs"@
}

/// `<dir>/<stem>_decrypted.tar.gz`: the temporary decrypted archive.
pub open spec fn artifact_of(source: Seq<char>) -> Seq<char> {
    dir_part(source) + source_stem(source) + "_decrypted.tar.gz"@
}

/// The extraction directory: the one asked for, else the default.
pub open spec fn extract_dir_of(source: Seq<char>, output_dir: Option<String>) -> Seq<char> {
    match output_dir {
        Some(d) => d@,
        None => default_extract_dir_of(source),
    }
}

/// `name` placed inside directory `dir`.
pub open spec fn join(dir: Seq<char>, name: Seq<char>) -> Seq<char> {
    if dir.len() == 0 {
        name
    } else if is_sep(dir.last()) {
        dir + name
    } else {
        dir + "/"@ + name
    }
}

fn last_name_start(p: &str) -> (r: usize)
    ensures
        r as int == name_start(p@),
        r <= p@.len(),
{
    let n = p.unicode_len();
    let mut i: usize = n;
    assert(p@.subrange(0, n as int) =~= p@);
    while i > 0
        invariant
            i <= n,
            n == p@.len(),
            name_start(p@) == name_start(p@.subrange(0, i as int)),
        decreases i,
    {
        let c = p.get_char(i - 1);
        if c == '/' {
            return i;
        }
        assert(p@.subrange(0, i as int).drop_last() =~= p@.subrange(0, i - 1));
        i = i - 1;
    }
    0
}

fn first_dot_from(n: &str, start: usize) -> (r: usize)
    requires
        start <= n@.len(),
    ensures
        r as int == dot_from(n@, start as int),
{
    let len = n.unicode_len();
    let mut i: usize = start;
    while i < len
        invariant
            start <= i <= len,
            len == n@.len(),
            dot_from(n@, start as int) == dot_from(n@, i as int),
        decreases len - i,
    {
        if n.get_char(i) == '.' {
            return i;
        }
        i = i + 1;
    }
    len
}

/// The directory part of `path`, up to and including its last separator.
pub fn dir_prefix(path: &str) -> (r: String)
    ensures
        r@ == dir_part(path@),
{
    let k = last_name_start(path);
    String::from_str(path.substring_char(0, k))
}

/// The stem of the file that `path` names: its last component without
/// extensions (`report` for `logs/report.tar.gz`).
pub fn file_stem(path: &str) -> (r: String)
    ensures
        r@ == source_stem(path@),
{
    let k = last_name_start(path);
    let name = path.substring_char(k, path.unicode_len());
    let len = name.unicode_len();
    if len == 0 {
        return String::new();
    }
    let end = first_dot_from(name, 1);
    proof {
        lemma_dot_from_bounds(name@, 1);
    }
    String::from_str(name.substring_char(0, end))
}

proof fn lemma_dot_from_bounds(n: Seq<char>, i: int)
    requires
        0 <= i <= n.len(),
    ensures
        i <= dot_from(n, i) <= n.len(),
    decreases n.len() - i,
{
    if i < n.len() && n[i] != '.' {
        lemma_dot_from_bounds(n, i + 1);
    }
}

/// The default extraction directory of `source`: `<dir>/<stem>_logs`.
pub fn default_extract_dir(source: &str) -> (r: String)
    ensures
        r@ == default_extract_dir_of(source@),
{
    let mut r = dir_prefix(source);
    let stem = file_stem(source);
    r.append(stem.as_str());
    r.append("_logs");
    r
}

/// Where the decrypted archive of `source` is written:
/// `<dir>/<stem>_decrypted.tar.gz`.
pub fn decrypted_artifact_path(source: &str) -> (r: String)
    ensures
        r@ == artifact_of(source@),
{
    let mut r = dir_prefix(source);
    let stem = file_stem(source);
    r.append(stem.as_str());
    r.append("_decrypted.tar.gz");
    r
}

/// The extraction directory: `output_dir` when given, else the default.
pub fn extract_dir_for(source: &str, output_dir: Option<String>) -> (r: String)
    ensures
        r@ == extract_dir_of(source@, output_dir),
{
    match output_dir {
        Some(d) => d,
        None => default_extract_dir(source),
    }
}

/// `name` placed inside directory `dir`, with one separator between them.
pub fn join_path(dir: &str, name: &str) -> (r: String)
    ensures
        r@ == join(dir@, name@),
{
    let n = dir.unicode_len();
    let mut r = String::from_str(dir);
    if n == 0 {
        return String::from_str(name);
    }
    if dir.get_char(n - 1) != '/' {
        r.append("/");
    }
    r.append(name);
    r
}

} // verus!
