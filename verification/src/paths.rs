//! Paths, held as text (`/`-separated, as on Unix).
use vstd::prelude::*;

verus! {

/// `dir.join(name)`: a relative `name` is added below `dir`, with a `/`
/// between them unless `dir` is empty or already ends in one; an absolute
/// `name` stands for itself.
pub open spec fn path_join(dir: Seq<char>, name: Seq<char>) -> Seq<char> {
    if name.len() > 0 && name[0] == '/' {
        name
    } else if dir.len() == 0 || dir.last() == '/' {
        dir + name
    } else {
        dir + seq!['/'] + name
    }
}

/// What `Path::file_name` gives for a path: its last normal component, if any.
pub uninterp spec fn path_file_name_of(path: Seq<char>) -> Option<Seq<char>>;

/// What `Path::parent` gives for a path: the path without its last
/// component, if it has one.
pub uninterp spec fn path_parent_of(path: Seq<char>) -> Option<Seq<char>>;

/// The texts held by a sequence of strings.
pub open spec fn string_seqs(v: Seq<String>) -> Seq<Seq<char>> {
    v.map_values(|s: String| s@)
}

/// Joining keeps the directory and puts the name after it, with exactly
/// one `/` between them: one is added only where the directory is not empty
/// and does not end in one; an absolute name replaces the directory.
pub proof fn lemma_path_join_separates(dir: Seq<char>, name: Seq<char>)
    ensures
        name.len() > 0 && name[0] == '/' ==> path_join(dir, name) == name,
        !(name.len() > 0 && name[0] == '/') && dir.len() > 0 && dir.last() != '/' ==> path_join(
            dir,
            name,
        ) == dir + seq!['/'] + name,
        !(name.len() > 0 && name[0] == '/') && (dir.len() == 0 || dir.last() == '/') ==> path_join(
            dir,
            name,
        ) == dir + name,
        !(name.len() > 0 && name[0] == '/') ==> path_join(dir, name).take(dir.len() as int) == dir
            && path_join(dir, name).skip(path_join(dir, name).len() - name.len()) == name,
{
    if !(name.len() > 0 && name[0] == '/') {
        let j = path_join(dir, name);
        if dir.len() > 0 && dir.last() != '/' {
            assert(j.take(dir.len() as int) =~= dir);
            assert(j.skip(j.len() - name.len()) =~= name);
        } else {
            assert(j.take(dir.len() as int) =~= dir);
            assert(j.skip(j.len() - name.len()) =~= name);
        }
    }
}

/// `Path::join` for a path held as text.
pub fn join_path(dir: &str, name: &str) -> (r: String)
    ensures
        r@ == path_join(dir@, name@),
{
    let mut out = crate::text::chars_of(dir);
    let name_chars = crate::text::chars_of(name);
    let absolute = name_chars.len() > 0 && name_chars[0] == '/';
    if absolute {
        return crate::text::string_from_chars(&name_chars);
    }
    if out.len() > 0 && out[out.len() - 1] != '/' {
        out.push('/');
    }
    let mut k: usize = 0;
    let ghost start = out@;
    while k < name_chars.len()
        invariant
            k <= name_chars.len(),
            out@ == start + name_chars@.take(k as int),
        decreases name_chars.len() - k,
    {
        out.push(name_chars[k]);
        k = k + 1;
        assert(out@ =~= start + name_chars@.take(k as int));
    }
    assert(name_chars@.take(k as int) =~= name_chars@);
    proof {
        if dir@.len() > 0 && dir@.last() != '/' {
            assert(start =~= dir@ + seq!['/']);
        }
    }
    crate::text::string_from_chars(&out)
}

/// Calls `Path::file_name` on `path` (and `OsStr::to_string_lossy`, which
/// changes nothing in a path that came from text).  Claimed: the answer
/// depends on `path` alone, and is named `path_file_name_of(path)`.
#[verifier::external_body]
pub(crate) fn file_name(path: &str) -> (r: Option<String>)
    ensures
        match r {
            Some(n) => path_file_name_of(path@) == Some(n@),
            None => path_file_name_of(path@) is None,
        },
{
    match std::path::Path::new(path).file_name() {
        Some(n) => Some(n.to_string_lossy().into_owned()),
        None => None,
    }
}

/// Calls `Path::parent` on `path` (and `Path::to_string_lossy`, which changes
/// nothing in a path that came from text).  Claimed: the answer depends on
/// `path` alone, and is named `path_parent_of(path)`.
#[verifier::external_body]
pub(crate) fn parent(path: &str) -> (r: Option<String>)
    ensures
        match r {
            Some(p) => path_parent_of(path@) == Some(p@),
            None => path_parent_of(path@) is None,
        },
{
    match std::path::Path::new(path).parent() {
        Some(p) => Some(p.to_string_lossy().into_owned()),
        None => None,
    }
}

} // verus!
