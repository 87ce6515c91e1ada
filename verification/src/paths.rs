//! A plain textual model of file paths.
//!
//! Paths are strings whose components are separated by `/`.  The file
//! name is the part after the last separator; the extension is the part
//! of the file name after its last `.`, where a leading dot does not
//! count as a separator (so a dotfile has no extension).  Joining adds a
//! separator only when the base does not already end in one.

use vstd::prelude::*;

verus! {

/// The index where the file name begins: just after the last `/`, or 0
/// when the path has no separator at all.
pub open spec fn file_name_start(p: Seq<char>) -> int
    decreases p.len(),
{
    if p.len() == 0 {
        0
    } else if p[p.len() - 1] == '/' {
        p.len() as int
    } else {
        file_name_start(p.drop_last())
    }
}

/// The file name: everything after the last `/`; empty when the path is
/// empty or ends in a separator.
pub open spec fn file_name_of(p: Seq<char>) -> Seq<char> {
    p.subrange(file_name_start(p), p.len() as int)
}

/// What `file_name_start` finds: a suffix free of separators, preceded
/// by one unless it is the whole path.
pub proof fn lemma_file_name_start(p: Seq<char>)
    ensures
        0 <= file_name_start(p) <= p.len(),
        forall|i: int| file_name_start(p) <= i < p.len() ==> p[i] != '/',
        file_name_start(p) > 0 ==> p[file_name_start(p) - 1] == '/',
    decreases p.len(),
{
    if p.len() == 0 {
    } else if p[p.len() - 1] == '/' {
    } else {
        lemma_file_name_start(p.drop_last());
        assert(forall|i: int|
            0 <= i < p.len() - 1 ==> p.drop_last()[i] == p[i]);
    }
}

/// The position of the `.` separating the extension inside a file name:
/// the largest index of a `.` that is not the first character, or -1
/// when there is none.
pub open spec fn ext_sep(f: Seq<char>) -> int
    decreases f.len(),
{
    if f.len() <= 1 {
        -1
    } else if f[f.len() - 1] == '.' {
        f.len() - 1
    } else {
        ext_sep(f.drop_last())
    }
}

/// What `ext_sep` finds: the last dot past the first character, with no
/// later dot after it.
pub proof fn lemma_ext_sep(f: Seq<char>)
    ensures
        -1 <= ext_sep(f) < f.len(),
        ext_sep(f) >= 0 ==> ext_sep(f) >= 1 && f[ext_sep(f)] == '.',
        forall|i: int| ext_sep(f) < i < f.len() && i >= 1 ==> f[i] != '.',
    decreases f.len(),
{
    if f.len() <= 1 {
    } else if f[f.len() - 1] == '.' {
    } else {
        lemma_ext_sep(f.drop_last());
        assert(forall|i: int|
            0 <= i < f.len() - 1 ==> f.drop_last()[i] == f[i]);
    }
}

/// Whether the path's file name carries an extension.
pub open spec fn has_extension(p: Seq<char>) -> bool {
    ext_sep(file_name_of(p)) >= 0
}

/// The extension: the file name's part after its last counting dot.
/// Meaningful only when `has_extension` holds.
pub open spec fn extension_of(p: Seq<char>) -> Seq<char> {
    let f = file_name_of(p);
    f.subrange(ext_sep(f) + 1, f.len() as int)
}

/// Joining a path onto a base: a `/` goes between them unless the base
/// is empty (the name stands alone) or already ends in one.
pub open spec fn path_join(base: Seq<char>, name: Seq<char>) -> Seq<char> {
    if base.len() == 0 {
        name
    } else if base[base.len() - 1] == '/' {
        base + name
    } else {
        base + seq!['/'] + name
    }
}

/// The file name of `path`: everything after the last `/`.
pub fn file_name(path: &str) -> (r: &str)
    ensures
        r@ == file_name_of(path@),
{
    let n = path.unicode_len();
    let mut start: usize = n;
    while start > 0
        invariant
            start <= n,
            n == path@.len(),
            forall|i: int| start <= i < n ==> path@[i] != '/',
        ensures
            start <= n,
            forall|i: int| start <= i < n ==> path@[i] != '/',
            start > 0 ==> path@[start - 1] == '/',
        decreases start,
    {
        if path.get_char(start - 1) == '/' {
            break;
        }
        start = start - 1;
    }
    proof {
        lemma_file_name_start(path@);
        let fs = file_name_start(path@);
        if fs < start {
            assert(path@[start - 1] != '/');
        } else if start < fs {
            assert(path@[fs - 1] != '/');
        }
    }
    path.substring_char(start, n)
}

/// The extension of `path`'s file name, or `None` when it has none.
pub fn extension(path: &str) -> (r: Option<&str>)
    ensures
        r is Some <==> has_extension(path@),
        r matches Some(e) ==> e@ == extension_of(path@),
{
    let f = file_name(path);
    let m = f.unicode_len();
    let mut j: usize = m;
    let mut sep: usize = 0;
    let mut found = false;
    while j > 1
        invariant_except_break
            !found,
        invariant
            j <= m,
            m == f@.len(),
            forall|i: int| j <= i < m ==> f@[i] != '.',
        ensures
            m == f@.len(),
            found ==> 1 <= sep < m && f@[sep as int] == '.' && forall|i: int|
                sep < i < m ==> f@[i] != '.',
            !found ==> forall|i: int| 1 <= i < m ==> f@[i] != '.',
        decreases j,
    {
        if f.get_char(j - 1) == '.' {
            found = true;
            sep = j - 1;
            break;
        }
        j = j - 1;
    }
    proof {
        lemma_ext_sep(f@);
        let es = ext_sep(f@);
        if found {
            if es < sep {
                assert(f@[sep as int] != '.');
            } else if sep < es {
                assert(f@[es] != '.');
            }
        } else {
            if es >= 0 {
                assert(f@[es] != '.');
            }
        }
    }
    if found {
        Some(f.substring_char(sep + 1, m))
    } else {
        None
    }
}

/// `base` with `name` appended as one more path component.
pub fn join_path(base: &str, name: &str) -> (r: String)
    ensures
        r@ == path_join(base@, name@),
{
    let n = base.unicode_len();
    let mut s = String::from_str(base);
    if n > 0 && base.get_char(n - 1) != '/' {
        s.append("/");
        proof {
            reveal_strlit("/");
            assert(s@ =~= base@ + seq!['/']);
        }
    }
    s.append(name);
    proof {
        assert(s@ =~= path_join(base@, name@));
    }
    s
}

/// Whether two strings hold the same characters.
pub fn str_eq(a: &str, b: &str) -> (r: bool)
    ensures
        r == (a@ == b@),
{
    let n = a.unicode_len();
    let m = b.unicode_len();
    if n != m {
        return false;
    }
    let mut i: usize = 0;
    while i < n
        invariant
            i <= n,
            n == a@.len(),
            n == b@.len(),
            forall|k: int| 0 <= k < i ==> a@[k] == b@[k],
        decreases n - i,
    {
        if a.get_char(i) != b.get_char(i) {
            return false;
        }
        i = i + 1;
    }
    proof {
        assert(a@ =~= b@);
    }
    true
}

} // verus!
