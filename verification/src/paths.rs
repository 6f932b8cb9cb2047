//! Pure string computations on URLs, paths and file names.
//!
//! The library emits `/` as its path separator and recognises both `/` and
//! `\` when it reads a path, so that configured roots written either way
//! are handled alike.

use vstd::prelude::*;
use vstd::string::StrSliceExecFns;
use vstd::string::StringExecFns;

verus! {

/// Both separators the library recognises when reading a path.
pub open spec fn is_sep(c: char) -> bool {
    c == '/' || c == '\\'
}

/// A path joined from a directory and a relative name, with `/` in between.
pub open spec fn join_path(dir: Seq<char>, name: Seq<char>) -> Seq<char> {
    dir + "/"@ + name
}

/// The download URL of a plugin archive: `{base}/{id}/{file}.zip`.
pub open spec fn download_url_spec(base: Seq<char>, id: Seq<char>, file: Seq<char>) -> Seq<char> {
    base + "/"@ + id + "/"@ + file + ".zip"@
}

/// Joins a directory and a relative name with a `/`.
pub fn join_dir(dir: &str, name: &str) -> (r: String)
    ensures
        r@ == join_path(dir@, name@),
{
    let mut s = dir.to_owned();
    s.append("/");
    s.append(name);
    proof {
        assert(s@ =~= join_path(dir@, name@));
    }
    s
}

/// Builds the download URL of a plugin archive: `{base}/{id}/{file}.zip`.
pub fn download_url(base: &str, id: &str, file: &str) -> (r: String)
    ensures
        r@ == download_url_spec(base@, id@, file@),
{
    let mut s = base.to_owned();
    s.append("/");
    s.append(id);
    s.append("/");
    s.append(file);
    s.append(".zip");
    proof {
        assert(s@ =~= download_url_spec(base@, id@, file@));
    }
    s
}

/// Appends a suffix to a name, for local file names such as `{file}.zip`.
pub fn with_suffix(name: &str, suffix: &str) -> (r: String)
    ensures
        r@ == name@ + suffix@,
{
    let mut s = name.to_owned();
    s.append(suffix);
    s
}

/// What stands after the last separator of a path; empty after a trailing
/// separator.
pub open spec fn base_name_of(p: Seq<char>) -> Seq<char>
    decreases p.len(),
{
    if p.len() == 0 {
        Seq::<char>::empty()
    } else if is_sep(p.last()) {
        Seq::<char>::empty()
    } else {
        base_name_of(p.drop_last()).push(p.last())
    }
}

/// Whether a sequence holds a `.` anywhere.
pub open spec fn has_dot(s: Seq<char>) -> bool {
    exists|i: int| 0 <= i < s.len() && s[i] == '.'
}

/// A file name without its extension: everything before the last `.`,
/// unless the only `.` is the leading character, in which case the whole
/// name is the stem.
pub open spec fn stem_of(name: Seq<char>) -> Seq<char>
    decreases name.len(),
{
    if name.len() <= 1 {
        name
    } else if name.last() == '.' {
        name.drop_last()
    } else if has_dot(name.subrange(1, name.len() as int)) {
        stem_of(name.drop_last())
    } else {
        name
    }
}

/// The directory part of a path: everything before the last separator;
/// empty when the path holds no separator.
pub open spec fn parent_of(p: Seq<char>) -> Seq<char>
    decreases p.len(),
{
    if p.len() == 0 {
        p
    } else if is_sep(p.last()) {
        p.drop_last()
    } else {
        parent_of(p.drop_last())
    }
}

/// A path with no separator is its own base name.
proof fn lemma_base_name_no_sep(p: Seq<char>)
    requires
        forall|i: int| 0 <= i < p.len() ==> !is_sep(#[trigger] p[i]),
    ensures
        base_name_of(p) == p,
    decreases p.len(),
{
    if p.len() == 0 {
        assert(base_name_of(p) =~= p);
    } else {
        lemma_base_name_no_sep(p.drop_last());
        assert(base_name_of(p) =~= p);
    }
}

/// The base name of a path is what follows its last separator.
proof fn lemma_base_name_split(p: Seq<char>, k: int)
    requires
        0 <= k < p.len(),
        is_sep(p[k]),
        forall|j: int| k < j < p.len() ==> !is_sep(#[trigger] p[j]),
    ensures
        base_name_of(p) == p.subrange(k + 1, p.len() as int),
    decreases p.len(),
{
    if k == p.len() - 1 {
        assert(base_name_of(p) =~= p.subrange(k + 1, p.len() as int));
    } else {
        lemma_base_name_split(p.drop_last(), k);
        assert(base_name_of(p) =~= p.subrange(k + 1, p.len() as int));
    }
}

/// A name whose tail holds no dot is its own stem.
proof fn lemma_stem_no_dot(name: Seq<char>)
    requires
        forall|i: int| 1 <= i < name.len() ==> #[trigger] name[i] != '.',
    ensures
        stem_of(name) == name,
{
    if name.len() > 1 {
        assert(!has_dot(name.subrange(1, name.len() as int)));
    }
}

/// The stem of a name with a last dot at `d >= 1` is the part before it.
proof fn lemma_stem_dot(name: Seq<char>, d: int)
    requires
        1 <= d < name.len(),
        name[d] == '.',
        forall|j: int| d < j < name.len() ==> #[trigger] name[j] != '.',
    ensures
        stem_of(name) == name.subrange(0, d),
    decreases name.len(),
{
    if d == name.len() - 1 {
        assert(stem_of(name) =~= name.subrange(0, d));
    } else {
        assert(name.last() != '.');
        assert(name.subrange(1, name.len() as int)[d - 1] == '.');
        assert(has_dot(name.subrange(1, name.len() as int)));
        lemma_stem_dot(name.drop_last(), d);
        assert(stem_of(name) =~= name.subrange(0, d));
    }
}

/// The final component of a path: what stands after its last separator.
pub fn base_name(path: &str) -> (r: String)
    ensures
        r@ == base_name_of(path@),
{
    let n = path.unicode_len();
    let mut start: usize = n;
    let mut found = false;
    while start > 0 && !found
        invariant
            0 <= start <= n,
            n == path@.len(),
            forall|j: int| start <= j < n ==> !is_sep(#[trigger] path@[j]),
            found ==> 1 <= start <= n && is_sep(path@[start - 1]),
        decreases start as int + (if found { 0int } else { 1int }),
    {
        let c = path.get_char(start - 1);
        if c == '/' || c == '\\' {
            found = true;
        } else {
            start = start - 1;
        }
    }
    let r = path.substring_char(start, n).to_owned();
    proof {
        if found {
            lemma_base_name_split(path@, start - 1);
        } else {
            lemma_base_name_no_sep(path@);
            assert(r@ =~= base_name_of(path@));
        }
    }
    r
}

/// The stem of a path's final component: the base name stripped of its
/// extension, as the extraction directory of a local archive is named.
pub fn file_stem(path: &str) -> (r: String)
    ensures
        r@ == stem_of(base_name_of(path@)),
{
    let name = base_name(path);
    let n = name.as_str().unicode_len();
    let mut dot: usize = n;
    let mut found = false;
    while dot > 1 && !found
        invariant
            0 <= dot <= n,
            n == name@.len(),
            forall|j: int| dot <= j < n ==> #[trigger] name@[j] != '.',
            found ==> 2 <= dot <= n && name@[dot - 1] == '.',
        decreases dot as int + (if found { 0int } else { 1int }),
    {
        let c = name.as_str().get_char(dot - 1);
        if c == '.' {
            found = true;
        } else {
            dot = dot - 1;
        }
    }
    if found {
        let r = name.as_str().substring_char(0, dot - 1).to_owned();
        proof {
            lemma_stem_dot(name@, dot - 1);
        }
        r
    } else {
        proof {
            lemma_stem_no_dot(name@);
        }
        name
    }
}

/// The directory part of a path, up to and excluding its last separator.
pub fn parent_dir(path: &str) -> (r: String)
    ensures
        r@ == parent_of(path@),
{
    let n = path.unicode_len();
    let mut end: usize = n;
    let mut found = false;
    while end > 0 && !found
        invariant
            0 <= end <= n,
            n == path@.len(),
            forall|j: int| end <= j < n ==> !is_sep(#[trigger] path@[j]),
            found ==> 1 <= end <= n && is_sep(path@[end - 1]),
        decreases end as int + (if found { 0int } else { 1int }),
    {
        let c = path.get_char(end - 1);
        if c == '/' || c == '\\' {
            found = true;
        } else {
            end = end - 1;
        }
    }
    if found {
        let r = path.substring_char(0, end - 1).to_owned();
        proof {
            lemma_parent_split(path@, end - 1);
        }
        r
    } else {
        proof {
            lemma_parent_no_sep(path@);
        }
        String::new()
    }
}

/// A path with no separator has an empty directory part.
proof fn lemma_parent_no_sep(p: Seq<char>)
    requires
        forall|i: int| 0 <= i < p.len() ==> !is_sep(#[trigger] p[i]),
    ensures
        parent_of(p) == Seq::<char>::empty(),
    decreases p.len(),
{
    if p.len() > 0 {
        lemma_parent_no_sep(p.drop_last());
    }
    assert(parent_of(p) =~= Seq::<char>::empty());
}

/// The directory part of a path ends just before its last separator.
proof fn lemma_parent_split(p: Seq<char>, k: int)
    requires
        0 <= k < p.len(),
        is_sep(p[k]),
        forall|j: int| k < j < p.len() ==> !is_sep(#[trigger] p[j]),
    ensures
        parent_of(p) == p.subrange(0, k),
    decreases p.len(),
{
    if k == p.len() - 1 {
        assert(parent_of(p) =~= p.subrange(0, k));
    } else {
        lemma_parent_split(p.drop_last(), k);
        assert(parent_of(p) =~= p.subrange(0, k));
    }
}

} // verus!
