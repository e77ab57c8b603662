//! File names and paths as character sequences, with `/` as the separator.
use vstd::prelude::*;

verus! {

/// Index of the last `.` in `s`, or `-1` when there is none.
pub open spec fn last_dot(s: Seq<char>) -> int
    decreases s.len(),
{
    if s.len() == 0 {
        -1
    } else if s.last() == '.' {
        s.len() - 1
    } else {
        last_dot(s.drop_last())
    }
}

/// The parent-directory name `..`.
pub open spec fn dot_dot() -> Seq<char> {
    seq!['.', '.']
}

/// A file name has an extension when it holds a `.` after its first character
/// and is not `..`.
pub open spec fn has_ext(name: Seq<char>) -> bool {
    name != dot_dot() && last_dot(name) > 0
}

/// The name without its extension (the whole name when it has none).
pub open spec fn stem_of(name: Seq<char>) -> Seq<char> {
    if has_ext(name) {
        name.take(last_dot(name))
    } else {
        name
    }
}

/// What follows the last `.` of the name, if it has an extension.
pub open spec fn ext_of(name: Seq<char>) -> Option<Seq<char>> {
    if has_ext(name) {
        Some(name.skip(last_dot(name) + 1))
    } else {
        None
    }
}

/// A name that designates a file: neither empty nor `..`.
pub open spec fn names_file(name: Seq<char>) -> bool {
    name.len() > 0 && name != dot_dot()
}

/// The path of `name` inside `dir`.
pub open spec fn join_of(dir: Seq<char>, name: Seq<char>) -> Seq<char> {
    dir + seq!['/'] + name
}

proof fn lemma_last_dot_range(s: Seq<char>)
    ensures
        -1 <= last_dot(s) < s.len(),
        last_dot(s) >= 0 ==> s[last_dot(s)] == '.',
    decreases s.len(),
{
    if s.len() > 0 && s.last() != '.' {
        lemma_last_dot_range(s.drop_last());
    }
}

/// Index of the last `.` in `s`, if any.
fn find_last_dot(s: &str) -> (r: Option<usize>)
    ensures
        r matches Some(i) ==> i == last_dot(s@),
        r is None ==> last_dot(s@) == -1,
{
    let n = s.unicode_len();
    let mut found: Option<usize> = None;
    let mut i: usize = 0;
    while i < n
        invariant
            n == s@.len(),
            i <= n,
            found matches Some(j) ==> j == last_dot(s@.take(i as int)),
            found is None ==> last_dot(s@.take(i as int)) == -1,
        decreases n - i,
    {
        assert(s@.take(i + 1).drop_last() =~= s@.take(i as int));
        if s.get_char(i) == '.' {
            found = Some(i);
        }
        i = i + 1;
    }
    assert(s@.take(n as int) =~= s@);
    found
}

fn is_dot_dot(s: &str) -> (r: bool)
    ensures
        r == (s@ == dot_dot()),
{
    if s.unicode_len() == 2 {
        let a = s.get_char(0);
        let b = s.get_char(1);
        if a == '.' && b == '.' {
            assert(s@ =~= dot_dot());
            true
        } else {
            false
        }
    } else {
        false
    }
}

/// Where the extension of a name starts: the index of its last `.`, if the name
/// has an extension.
fn ext_dot(name: &str) -> (r: Option<usize>)
    ensures
        has_ext(name@) <==> r is Some,
        r matches Some(i) ==> i == last_dot(name@) && i < name@.len(),
{
    proof { lemma_last_dot_range(name@); }
    if is_dot_dot(name) {
        return None;
    }
    match find_last_dot(name) {
        Some(i) => {
            if i > 0 {
                Some(i)
            } else {
                None
            }
        },
        None => None,
    }
}

/// The base name of a file name: `None` for an empty name or `..`, otherwise
/// the name without its extension.
pub fn file_stem(name: &str) -> (r: Option<String>)
    ensures
        names_file(name@) <==> r is Some,
        r matches Some(s) ==> s@ == stem_of(name@),
{
    if name.unicode_len() == 0 || is_dot_dot(name) {
        return None;
    }
    match ext_dot(name) {
        Some(i) => Some(String::from_str(name.substring_char(0, i))),
        None => Some(String::from_str(name)),
    }
}

/// The extension of a file name, if it has one.
pub fn extension(name: &str) -> (r: Option<String>)
    ensures
        ext_of(name@) matches Some(e) ==> (r matches Some(s) && s@ == e),
        ext_of(name@) is None ==> r is None,
{
    let n = name.unicode_len();
    match ext_dot(name) {
        Some(i) => Some(String::from_str(name.substring_char(i + 1, n))),
        None => None,
    }
}

/// The path of `name` inside `dir`.
pub fn join(dir: &str, name: &str) -> (r: String)
    ensures
        r@ == join_of(dir@, name@),
{
    proof { reveal_strlit("/"); }
    String::from_str(dir).concat("/").concat(name)
}

} // verus!
