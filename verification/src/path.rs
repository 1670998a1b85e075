//! Path strings as the catalog sees them: separators, the asset root, and
//! the extension that marks a model file.

use vstd::prelude::*;
use crate::text::{chars_of, string_from};

verus! {

/// Both `/` and `\` separate the components of a path, whichever platform
/// wrote it.
pub open spec fn is_separator(c: char) -> bool {
    c == '/' || c == '\\'
}

/// A character with `\` turned into `/`.
pub open spec fn canonical(c: char) -> char {
    if c == '\\' {
        '/'
    } else {
        c
    }
}

/// A path with every separator written as `/`.
pub open spec fn normalized(path: Seq<char>) -> Seq<char> {
    path.map_values(|c: char| canonical(c))
}

/// No `\` is left in the path.
pub open spec fn is_normalized(path: Seq<char>) -> bool {
    forall|i: int| 0 <= i < path.len() ==> path[i] != '\\'
}

/// How many leading characters of the normalized `path` name the normalized
/// `root`: the root itself and the separator behind it. Zero when the path
/// does not lie under the root, or the root is empty.
pub open spec fn root_prefix_len(path: Seq<char>, root: Seq<char>) -> int {
    if root.len() > 0 && root.is_prefix_of(path) {
        if root.last() == '/' {
            root.len() as int
        } else if path.len() > root.len() && path[root.len() as int] == '/' {
            root.len() as int + 1
        } else {
            0
        }
    } else {
        0
    }
}

/// The path relative to the asset root, with `/` as the only separator.
/// A path that does not lie under the root is only normalized.
pub open spec fn relative_to(path: Seq<char>, root: Seq<char>) -> Seq<char> {
    let p = normalized(path);
    p.skip(root_prefix_len(p, normalized(root)))
}

/// The file name of `path` has the extension `ext`: the path ends in a dot
/// and `ext`, `ext` holds neither a dot nor a separator, and the dot is not
/// the first character of the file name.
pub open spec fn has_extension(path: Seq<char>, ext: Seq<char>) -> bool {
    let n = path.len() as int;
    let k = ext.len() as int;
    &&& n >= k + 2
    &&& path.skip(n - k) == ext
    &&& path[n - k - 1] == '.'
    &&& !is_separator(path[n - k - 2])
    &&& forall|j: int| 0 <= j < k ==> ext[j] != '.' && !is_separator(#[trigger] ext[j])
}

/// Normalizing leaves no `\` behind and keeps the length.
pub proof fn lemma_normalized_is_normalized(path: Seq<char>)
    ensures
        is_normalized(normalized(path)),
        normalized(path).len() == path.len(),
{
}

/// Normalizing twice is normalizing once.
pub proof fn lemma_normalized_idempotent(path: Seq<char>)
    ensures
        normalized(normalized(path)) == normalized(path),
{
    assert(normalized(normalized(path)) =~= normalized(path));
}

/// A relative path holds no `\`, whatever the path and the root were.
pub proof fn lemma_relative_is_normalized(path: Seq<char>, root: Seq<char>)
    ensures
        is_normalized(relative_to(path, root)),
{
    let p = normalized(path);
    let k = root_prefix_len(p, normalized(root));
    lemma_normalized_is_normalized(path);
    assert forall|i: int| 0 <= i < p.skip(k).len() implies p.skip(k)[i] != '\\' by {
        assert(p.skip(k)[i] == p[i + k]);
    }
}

/// A path under the root is listed by what follows the root and its
/// separator, whichever separator the path was written with and whether or
/// not the root was written with a trailing one.
pub proof fn lemma_relative_under_root(root: Seq<char>, separator: char, rest: Seq<char>)
    requires
        root.len() > 0,
        is_separator(separator),
    ensures
        !is_separator(root.last()) ==> relative_to(root + seq![separator] + rest, root)
            == normalized(rest),
        relative_to(root + seq![separator] + rest, root + seq![separator]) == normalized(rest),
{
    let path = root + seq![separator] + rest;
    let p = normalized(path);
    let r = normalized(root);
    let rs = normalized(root + seq![separator]);
    assert(p =~= r + seq!['/'] + normalized(rest));
    assert(rs =~= r + seq!['/']);
    assert(r =~= p.subrange(0, r.len() as int));
    assert(rs =~= p.subrange(0, rs.len() as int));
    assert(p.skip(r.len() as int + 1) =~= normalized(rest));
    assert(p.skip(rs.len() as int) =~= normalized(rest));
    assert(rs.last() == '/');
    assert(p[r.len() as int] == '/');
    assert(r.last() == canonical(root.last()));
}

/// A file name made of a stem, a dot and an extension has that extension,
/// whatever directories stand before it.
pub proof fn lemma_named_file_has_extension(stem: Seq<char>, ext: Seq<char>)
    requires
        stem.len() > 0,
        !is_separator(stem.last()),
        forall|j: int| 0 <= j < ext.len() ==> ext[j] != '.' && !is_separator(#[trigger] ext[j]),
    ensures
        has_extension(stem + seq!['.'] + ext, ext),
{
    let path = stem + seq!['.'] + ext;
    assert(path.skip(path.len() - ext.len()) =~= ext);
    assert(path[path.len() - ext.len() - 1] == '.');
    assert(path[path.len() - ext.len() - 2] == stem.last());
}

/// A path has at most one extension.
pub proof fn lemma_extension_is_unique(path: Seq<char>, first: Seq<char>, second: Seq<char>)
    requires
        has_extension(path, first),
        has_extension(path, second),
    ensures
        first == second,
{
    let n = path.len() as int;
    if first.len() < second.len() {
        let j = second.len() - first.len() - 1;
        assert(path.skip(n - second.len())[j] == second[j]);
        assert(second[j] == '.');
    } else if second.len() < first.len() {
        let j = first.len() - second.len() - 1;
        assert(path.skip(n - first.len())[j] == first[j]);
        assert(first[j] == '.');
    }
}

fn normalized_chars(path: &str) -> (out: Vec<char>)
    ensures
        out@ == normalized(path@),
{
    let chars = chars_of(path);
    let mut out: Vec<char> = Vec::new();
    let mut i: usize = 0;
    while i < chars.len()
        invariant
            i <= chars.len(),
            chars@ == path@,
            out@ == normalized(path@.take(i as int)),
        decreases chars.len() - i,
    {
        let c = chars[i];
        out.push(if c == '\\' { '/' } else { c });
        i += 1;
        assert(out@ =~= normalized(path@.take(i as int)));
    }
    assert(path@.take(i as int) =~= path@);
    out
}

/// The path with every `\` replaced by `/`.
pub fn normalize_separators(path: &str) -> (out: String)
    ensures
        out@ == normalized(path@),
{
    let chars = normalized_chars(path);
    string_from(&chars, 0)
}

fn starts_with(path: &Vec<char>, prefix: &Vec<char>) -> (b: bool)
    ensures
        b == prefix@.is_prefix_of(path@),
{
    if prefix.len() > path.len() {
        return false;
    }
    let mut i: usize = 0;
    while i < prefix.len()
        invariant
            i <= prefix.len() <= path.len(),
            forall|j: int| 0 <= j < i ==> prefix@[j] == path@[j],
        decreases prefix.len() - i,
    {
        if prefix[i] != path[i] {
            assert(path@.subrange(0, prefix@.len() as int)[i as int] != prefix@[i as int]);
            return false;
        }
        i += 1;
    }
    assert(prefix@ =~= path@.subrange(0, prefix@.len() as int));
    true
}

/// The identifier under which the catalog lists the file at `path`: the path
/// relative to `root`, with `/` as its only separator.
pub fn relative_identifier(path: &str, root: &str) -> (out: String)
    ensures
        out@ == relative_to(path@, root@),
{
    let p = normalized_chars(path);
    let r = normalized_chars(root);
    let m = r.len();
    let mut start: usize = 0;
    if m > 0 && starts_with(&p, &r) {
        if r[m - 1] == '/' {
            start = m;
        } else if p.len() > m && p[m] == '/' {
            start = m + 1;
        }
    }
    string_from(&p, start)
}

/// Whether the file name of `path` has the extension `ext`.
pub fn path_has_extension(path: &str, ext: &str) -> (b: bool)
    ensures
        b == has_extension(path@, ext@),
{
    let p = chars_of(path);
    let e = chars_of(ext);
    let n = p.len();
    let k = e.len();
    if n < 2 || k > n - 2 {
        return false;
    }
    if p[n - k - 1] != '.' {
        return false;
    }
    let before = p[n - k - 2];
    if before == '/' || before == '\\' {
        return false;
    }
    let mut j: usize = 0;
    while j < k
        invariant
            j <= k,
            k + 2 <= n,
            n == p.len(),
            k == e.len(),
            p@ == path@,
            e@ == ext@,
            forall|i: int| 0 <= i < j ==> e@[i] == p@[n - k + i],
            forall|i: int| 0 <= i < j ==> e@[i] != '.' && !is_separator(#[trigger] e@[i]),
        decreases k - j,
    {
        let c = e[j];
        if c != p[n - k + j] {
            assert(p@.skip(n - k)[j as int] != e@[j as int]);
            return false;
        }
        if c == '.' || c == '/' || c == '\\' {
            return false;
        }
        j += 1;
    }
    assert(p@.skip(n - k) =~= e@);
    true
}

} // verus!
