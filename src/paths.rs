//! A model of file paths as Unix writes them, with `/` as the only
//! separator, and the few path operations the renderer needs: the final
//! component, its stem and extension, the parent directory, joining, and
//! renaming the final component.
//!
//! Unlike `std::path`, the model reads a path literally: a trailing `/`
//! means the path has no file name (`a/b/` names no file), and repeated
//! separators are kept as they are.
use vstd::prelude::*;

verus! {

/// Index of the last occurrence of `c` in `s`, or -1 when there is none.
pub open spec fn last_index_of(s: Seq<char>, c: char) -> int
    decreases s.len(),
{
    if s.len() == 0 {
        -1
    } else if s.last() == c {
        s.len() - 1
    } else {
        last_index_of(s.drop_last(), c)
    }
}

pub proof fn lemma_last_index_bounds(s: Seq<char>, c: char)
    ensures
        -1 <= last_index_of(s, c) < s.len(),
        last_index_of(s, c) >= 0 ==> s[last_index_of(s, c)] == c,
        forall|j: int| last_index_of(s, c) < j < s.len() ==> s[j] != c,
    decreases s.len(),
{
    if s.len() > 0 && s.last() != c {
        lemma_last_index_bounds(s.drop_last(), c);
        assert forall|j: int| last_index_of(s, c) < j < s.len() implies s[j] != c by {
            if j < s.len() - 1 {
                assert(s.drop_last()[j] == s[j]);
            }
        }
    }
}

proof fn lemma_last_index_prefix(s: Seq<char>, c: char, i: int)
    requires
        0 <= i <= s.len(),
        forall|j: int| i <= j < s.len() ==> s[j] != c,
    ensures
        last_index_of(s, c) == last_index_of(s.subrange(0, i), c),
    decreases s.len() - i,
{
    if i < s.len() {
        assert(s.last() != c);
        lemma_last_index_prefix(s.drop_last(), c, i);
        assert(s.drop_last().subrange(0, i) =~= s.subrange(0, i));
    } else {
        assert(s.subrange(0, i) =~= s);
    }
}

/// The text after the last `/` (the whole path when there is no `/`).
pub open spec fn last_segment(p: Seq<char>) -> Seq<char> {
    p.subrange(last_index_of(p, '/') + 1, p.len() as int)
}

/// The text up to and including the last `/` (empty when there is no `/`).
pub open spec fn dir_prefix(p: Seq<char>) -> Seq<char> {
    p.subrange(0, last_index_of(p, '/') + 1)
}

/// A path has a file name when its last segment is neither empty, `.` nor `..`.
pub open spec fn has_file_name(p: Seq<char>) -> bool {
    let seg = last_segment(p);
    seg.len() > 0 && seg != seq!['.'] && seg != seq!['.', '.']
}

pub open spec fn file_name(p: Seq<char>) -> Option<Seq<char>> {
    if has_file_name(p) {
        Some(last_segment(p))
    } else {
        None
    }
}

/// Position of the dot that starts the extension of a file name, if any:
/// the last dot, unless it is the first character.
pub open spec fn ext_dot(name: Seq<char>) -> int {
    let d = last_index_of(name, '.');
    if d > 0 {
        d
    } else {
        -1
    }
}

pub open spec fn file_stem(p: Seq<char>) -> Option<Seq<char>> {
    if has_file_name(p) {
        let name = last_segment(p);
        if ext_dot(name) > 0 {
            Some(name.subrange(0, ext_dot(name)))
        } else {
            Some(name)
        }
    } else {
        None
    }
}

pub open spec fn extension(p: Seq<char>) -> Option<Seq<char>> {
    if has_file_name(p) {
        let name = last_segment(p);
        if ext_dot(name) > 0 {
            Some(name.subrange(ext_dot(name) + 1, name.len() as int))
        } else {
            None
        }
    } else {
        None
    }
}

/// The directory that holds the final component: `None` for the empty path,
/// the empty path for a bare name, `/` for a name directly under the root.
pub open spec fn parent(p: Seq<char>) -> Option<Seq<char>> {
    let k = last_index_of(p, '/');
    if p.len() == 0 {
        None
    } else if k < 0 {
        Some(Seq::empty())
    } else if k == 0 {
        Some(seq!['/'])
    } else {
        Some(p.subrange(0, k))
    }
}

/// `dir` followed by `name`, with one `/` between them where needed.
pub open spec fn join(dir: Seq<char>, name: Seq<char>) -> Seq<char> {
    if dir.len() == 0 || dir.last() == '/' {
        dir + name
    } else {
        dir + seq!['/'] + name
    }
}

/// The path with its final component replaced by `name`; a path without a
/// file name gets `name` appended.
pub open spec fn with_file_name(p: Seq<char>, name: Seq<char>) -> Seq<char> {
    if has_file_name(p) {
        dir_prefix(p) + name
    } else {
        join(p, name)
    }
}

/// The path with the extension of its file name replaced by `ext` (removed
/// when `ext` is empty); a path without a file name is left as it is.
pub open spec fn with_extension(p: Seq<char>, ext: Seq<char>) -> Seq<char> {
    if has_file_name(p) {
        let stem = file_stem(p).unwrap();
        if ext.len() > 0 {
            dir_prefix(p) + stem + seq!['.'] + ext
        } else {
            dir_prefix(p) + stem
        }
    } else {
        p
    }
}

/// Renaming the final component of `path` to `name` while keeping the
/// extension that `path` had.
pub open spec fn renamed(path: Seq<char>, name: Seq<char>) -> Seq<char> {
    let base = with_file_name(path, name);
    match extension(path) {
        Some(ext) => with_extension(base, ext),
        None => base,
    }
}

/// Finds the last occurrence of `c` in `s`.
pub fn find_last(s: &str, c: char) -> (r: Option<usize>)
    ensures
        match r {
            Some(i) => i as int == last_index_of(s@, c),
            None => last_index_of(s@, c) == -1,
        },
{
    let n = s.unicode_len();
    let mut i: usize = n;
    while i > 0
        invariant
            i <= n == s@.len(),
            forall|j: int| i <= j < n ==> s@[j] != c,
        decreases i,
    {
        if s.get_char(i - 1) == c {
            proof {
                lemma_last_index_prefix(s@, c, i as int);
            }
            return Some(i - 1);
        }
        i = i - 1;
    }
    proof {
        lemma_last_index_prefix(s@, c, 0);
    }
    None
}

fn is_dot_name(s: &str) -> (r: bool)
    ensures
        r == (s@ == seq!['.'] || s@ == seq!['.', '.']),
{
    let n = s.unicode_len();
    if n == 1 {
        let a = s.get_char(0);
        assert(a == '.' ==> s@ =~= seq!['.']);
        a == '.'
    } else if n == 2 {
        let a = s.get_char(0);
        let b = s.get_char(1);
        assert(a == '.' && b == '.' ==> s@ =~= seq!['.', '.']);
        a == '.' && b == '.'
    } else {
        false
    }
}

/// Splits `p` into the text up to and including its last `/`, and the rest.
fn split_last_segment(p: &str) -> (r: (&str, &str))
    ensures
        r.0@ == dir_prefix(p@),
        r.1@ == last_segment(p@),
{
    proof {
        lemma_last_index_bounds(p@, '/');
    }
    let n = p.unicode_len();
    let k: usize = match find_last(p, '/') {
        Some(i) => i + 1,
        None => 0,
    };
    (p.substring_char(0, k), p.substring_char(k, n))
}

/// The final component of `p`, if it has one.
pub fn path_file_name(p: &str) -> (r: Option<&str>)
    ensures
        match r {
            Some(s) => file_name(p@) == Some(s@),
            None => file_name(p@) is None,
        },
{
    let (_, seg) = split_last_segment(p);
    if seg.unicode_len() > 0 && !is_dot_name(seg) {
        Some(seg)
    } else {
        None
    }
}

/// Splits a file name at the dot that starts its extension.
fn split_extension(name: &str) -> (r: Option<(&str, &str)>)
    ensures
        match r {
            Some(pair) => ext_dot(name@) > 0 && pair.0@ == name@.subrange(0, ext_dot(name@))
                && pair.1@ == name@.subrange(ext_dot(name@) + 1, name@.len() as int),
            None => ext_dot(name@) == -1,
        },
{
    proof {
        lemma_last_index_bounds(name@, '.');
    }
    let n = name.unicode_len();
    match find_last(name, '.') {
        Some(d) => {
            if d > 0 {
                Some((name.substring_char(0, d), name.substring_char(d + 1, n)))
            } else {
                None
            }
        },
        None => None,
    }
}

/// The stem of the final component of `p`: its name without the extension.
pub fn path_file_stem(p: &str) -> (r: Option<&str>)
    ensures
        match r {
            Some(s) => file_stem(p@) == Some(s@),
            None => file_stem(p@) is None,
        },
{
    match path_file_name(p) {
        Some(name) => match split_extension(name) {
            Some((stem, _)) => Some(stem),
            None => Some(name),
        },
        None => None,
    }
}

/// The extension of the final component of `p`.
pub fn path_extension(p: &str) -> (r: Option<&str>)
    ensures
        match r {
            Some(s) => extension(p@) == Some(s@),
            None => extension(p@) is None,
        },
{
    match path_file_name(p) {
        Some(name) => match split_extension(name) {
            Some((_, ext)) => Some(ext),
            None => None,
        },
        None => None,
    }
}

/// The directory that holds the final component of `p`.
pub fn path_parent(p: &str) -> (r: Option<String>)
    ensures
        match r {
            Some(s) => parent(p@) == Some(s@),
            None => parent(p@) is None,
        },
{
    proof {
        lemma_last_index_bounds(p@, '/');
    }
    let n = p.unicode_len();
    if n == 0 {
        return None;
    }
    match find_last(p, '/') {
        Some(k) => {
            if k == 0 {
                let r = String::from_str("/");
                proof {
                    reveal_strlit("/");
                    assert(r@ =~= seq!['/']);
                }
                Some(r)
            } else {
                Some(String::from_str(p.substring_char(0, k)))
            }
        },
        None => Some(String::new()),
    }
}

/// `dir` and `name` joined by a `/` where `dir` does not already end in one.
pub fn path_join(dir: &str, name: &str) -> (r: String)
    ensures
        r@ == join(dir@, name@),
{
    let n = dir.unicode_len();
    let mut r = String::from_str(dir);
    if n > 0 && dir.get_char(n - 1) != '/' {
        r.append("/");
        proof {
            reveal_strlit("/");
        }
    }
    r.append(name);
    assert(r@ =~= join(dir@, name@));
    r
}

/// `p` with its final component replaced by `name`; a path without a file
/// name gets `name` appended.
pub fn path_with_file_name(p: &str, name: &str) -> (r: String)
    ensures
        r@ == with_file_name(p@, name@),
{
    match path_file_name(p) {
        Some(_) => {
            let (dir, _) = split_last_segment(p);
            let mut r = String::from_str(dir);
            r.append(name);
            r
        },
        None => path_join(p, name),
    }
}

fn set_extension(p: &str, ext: &str) -> (r: String)
    ensures
        r@ == with_extension(p@, ext@),
{
    match path_file_stem(p) {
        Some(stem) => {
            let (dir, _) = split_last_segment(p);
            let mut r = String::from_str(dir);
            r.append(stem);
            if ext.unicode_len() > 0 {
                r.append(".");
                proof {
                    reveal_strlit(".");
                }
                r.append(ext);
            }
            assert(r@ =~= with_extension(p@, ext@));
            r
        },
        None => String::from_str(p),
    }
}

/// Gives `path` the file name `name`, keeping the extension that `path` had.
pub fn change_file_name(path: &str, name: &str) -> (r: String)
    ensures
        r@ == renamed(path@, name@),
{
    let base = path_with_file_name(path, name);
    match path_extension(path) {
        Some(ext) => set_extension(base.as_str(), ext),
        None => base,
    }
}

} // verus!
