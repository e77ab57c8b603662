//! The directive line that starts a mikino snippet and says how to run it.
use vstd::prelude::*;
use crate::error::{Cmd, Error};

verus! {

/// Unicode's `White_Space` property, which `char::is_whitespace` tests.
pub open spec fn is_ws(c: char) -> bool {
    let u = c as u32;
    (0x09 <= u && u <= 0x0d) || u == 0x20 || u == 0x85 || u == 0xa0 || u == 0x1680
        || (0x2000 <= u && u <= 0x200a) || u == 0x2028 || u == 0x2029 || u == 0x202f
        || u == 0x205f || u == 0x3000
}

/// The maximal runs of non-whitespace characters of `s`, in order.
pub open spec fn words(s: Seq<char>) -> Seq<Seq<char>>
    decreases s.len(),
{
    if s.len() == 0 {
        seq![]
    } else {
        let p = s.drop_last();
        let c = s.last();
        let w = words(p);
        if is_ws(c) {
            w
        } else if p.len() > 0 && !is_ws(p.last()) {
            w.update(w.len() - 1, w.last().push(c))
        } else {
            w.push(seq![c])
        }
    }
}

/// `l` is the first line of `text`, its line break included: a non-empty
/// prefix of `text` that holds no line break but in its last place, and ends
/// with one or with the text.
pub open spec fn is_first_line(l: Seq<char>, text: Seq<char>) -> bool {
    &&& 0 < l.len() <= text.len()
    &&& l == text.take(l.len() as int)
    &&& forall|j: int| 0 <= j < l.len() - 1 ==> l[j] != '\n'
    &&& (l.last() == '\n' || l.len() == text.len())
}

/// The marker that follows the line prefix.
pub open spec fn marker() -> Seq<char> {
    seq![' ', 'C', 'M', 'D', ':', ' ']
}

/// The command name a directive must give.
pub open spec fn mikino_word() -> Seq<char> {
    seq!['m', 'i', 'k', 'i', 'n', 'o']
}

/// The flag that passes the SMT solver's command on to mikino.
pub open spec fn z3_flag() -> Seq<char> {
    seq!['-', '-', 'z', '3', '_', 'c', 'm', 'd']
}

/// The token that stands for the snippet's own path.
pub open spec fn placeholder() -> Seq<char> {
    seq!['<', 'f', 'i', 'l', 'e', '>']
}

/// An argument of the directive, with the placeholder replaced by `path`.
pub open spec fn subst(path: Seq<char>, t: Seq<char>) -> Seq<char> {
    if t == placeholder() {
        path
    } else {
        t
    }
}

/// The views of a sequence of strings.
pub open spec fn views(v: Seq<String>) -> Seq<Seq<char>> {
    v.map_values(|s: String| s@)
}

/// The tokens of a directive line that follow its prefix and marker.
pub open spec fn directive_words(line: Seq<char>, pref: Seq<char>) -> Seq<Seq<char>> {
    words(line.skip(pref.len() + marker().len() as int))
}

/// The arguments of the command a well-formed directive line stands for.
pub open spec fn directive_args(
    z3_cmd: Seq<char>,
    path: Seq<char>,
    line: Seq<char>,
    pref: Seq<char>,
) -> Seq<Seq<char>> {
    seq![z3_flag(), z3_cmd] + directive_words(line, pref).skip(1).map_values(
        |t: Seq<char>| subst(path, t),
    )
}

fn is_ws_char(c: char) -> (r: bool)
    ensures
        r == is_ws(c),
{
    let u = c as u32;
    (0x09 <= u && u <= 0x0d) || u == 0x20 || u == 0x85 || u == 0xa0 || u == 0x1680
        || (0x2000 <= u && u <= 0x200a) || u == 0x2028 || u == 0x2029 || u == 0x202f
        || u == 0x205f || u == 0x3000
}

/// Splits `s` at whitespace, as `str::split_whitespace` does.
pub fn split_words(s: &str) -> (r: Vec<String>)
    ensures
        views(r@) == words(s@),
{
    let n = s.unicode_len();
    let mut acc: Vec<String> = Vec::new();
    let mut start: usize = 0;
    let mut i: usize = 0;
    while i < n
        invariant
            n == s@.len(),
            i <= n,
            start <= i,
            (i > 0 && !is_ws(s@[i - 1])) ==> start < i && words(s@.take(i as int)) == views(
                acc@,
            ).push(s@.subrange(start as int, i as int)),
            !(i > 0 && !is_ws(s@[i - 1])) ==> words(s@.take(i as int)) == views(acc@),
        decreases n - i,
    {
        let c = s.get_char(i);
        let ghost t = s@.take(i + 1);
        assert(t.drop_last() =~= s@.take(i as int));
        assert(t.last() == c);
        let in_word = i > 0 && !is_ws_char(s.get_char(i - 1));
        if is_ws_char(c) {
            if in_word {
                let w = String::from_str(s.substring_char(start, i));
                let ghost before = acc@;
                acc.push(w);
                assert(views(acc@) =~= views(before).push(w@));
            }
        } else {
            if in_word {
                assert(s@.subrange(start as int, i as int).push(c) =~= s@.subrange(
                    start as int,
                    i + 1,
                ));
            } else {
                start = i;
                assert(seq![c] =~= s@.subrange(i as int, i + 1));
            }
        }
        i = i + 1;
    }
    assert(s@.take(n as int) =~= s@);
    if n > 0 && !is_ws_char(s.get_char(n - 1)) {
        let w = String::from_str(s.substring_char(start, n));
        let ghost before = acc@;
        acc.push(w);
        assert(views(acc@) =~= views(before).push(w@));
    }
    acc
}

/// The first line of `text`, its line break included; `None` when `text` is
/// empty.
pub fn first_line_of(text: &str) -> (r: Option<String>)
    ensures
        text@.len() == 0 <==> r is None,
        r matches Some(l) ==> is_first_line(l@, text@),
{
    let n = text.unicode_len();
    if n == 0 {
        return None;
    }
    let mut i: usize = 0;
    while i < n
        invariant
            n == text@.len(),
            i <= n,
            forall|j: int| 0 <= j < i ==> text@[j] != '\n',
        decreases n - i,
    {
        if text.get_char(i) == '\n' {
            return Some(String::from_str(text.substring_char(0, i + 1)));
        }
        i = i + 1;
    }
    assert(text@.take(n as int) =~= text@);
    Some(String::from_str(text))
}

/// Whether `s` starts with `p`.
fn starts_with(s: &str, p: &str) -> (r: bool)
    ensures
        r == p@.is_prefix_of(s@),
{
    let n = s.unicode_len();
    let m = p.unicode_len();
    if m > n {
        return false;
    }
    let mut i: usize = 0;
    while i < m
        invariant
            n == s@.len(),
            m == p@.len(),
            m <= n,
            i <= m,
            forall|j: int| 0 <= j < i ==> p@[j] == s@[j],
        decreases m - i,
    {
        if p.get_char(i) != s.get_char(i) {
            return false;
        }
        i = i + 1;
    }
    assert(s@.take(m as int) =~= p@);
    true
}

/// Builds the command that the directive line of a mikino snippet asks for.
///
/// `first_line` is the snippet's first line (`None` for an empty snippet). It
/// must start with `pref` followed by ` CMD: `; its first word must then be
/// `mikino`. The command runs `mikino_cmd` with `--z3_cmd z3_cmd` and then the
/// line's other words, where `<file>` stands for `path`.
pub fn retrieve_mkn_cmd(
    mikino_cmd: &str,
    z3_cmd: &str,
    path: &str,
    first_line: Option<&str>,
    pref: &str,
) -> (r: Result<Cmd, Error>)
    ensures
        first_line is None ==> (r matches Err(Error::MissingDirective { path: p }) && p@ == path@),
        first_line is Some ==> {
            let l = first_line->Some_0@;
            let toks = directive_words(l, pref@);
            if !(pref@ + marker()).is_prefix_of(l) {
                r matches Err(Error::MalformedDirective { expected: e, found: None })
                    && e@ == pref@ + marker()
            } else if toks.len() == 0 {
                r matches Err(Error::MalformedDirective { expected: e, found: None })
                    && e@ == mikino_word()
            } else if toks[0] != mikino_word() {
                r matches Err(Error::MalformedDirective { expected: e, found: Some(f) })
                    && e@ == mikino_word() && f@ == toks[0]
            } else {
                r matches Ok(c) && c.program@ == mikino_cmd@
                    && views(c.args@) == directive_args(z3_cmd@, path@, l, pref@)
            }
        },
{
    proof {
        reveal_strlit(" CMD: ");
        reveal_strlit("mikino");
        reveal_strlit("--z3_cmd");
        reveal_strlit("<file>");
    }
    let line = match first_line {
        Some(l) => l,
        None => {
            return Err(Error::MissingDirective { path: String::from_str(path) });
        },
    };
    let full = String::from_str(pref).concat(" CMD: ");
    assert(full@ =~= pref@ + marker());
    if !starts_with(line, full.as_str()) {
        return Err(Error::MalformedDirective { expected: full, found: None });
    }
    let start = full.as_str().unicode_len();
    let n = line.unicode_len();
    let rest = line.substring_char(start, n);
    let elems = split_words(rest);
    assert(line@.skip(start as int) =~= rest@);
    let mikino = String::from_str("mikino");
    assert(mikino@ =~= mikino_word());
    if elems.len() == 0 {
        return Err(Error::MalformedDirective { expected: mikino, found: None });
    }
    assert(views(elems@)[0] == elems@[0]@);
    if elems[0] != mikino {
        let found = elems[0].clone();
        return Err(Error::MalformedDirective { expected: mikino, found: Some(found) });
    }
    let flag = String::from_str("--z3_cmd");
    assert(flag@ =~= z3_flag());
    let mut args: Vec<String> = Vec::new();
    args.push(flag);
    args.push(String::from_str(z3_cmd));
    assert(views(args@) =~= seq![z3_flag(), z3_cmd@]);
    let placeholder_s = String::from_str("<file>");
    assert(placeholder_s@ =~= placeholder());
    let ghost toks = views(elems@);
    assert(views(args@) =~= seq![z3_flag(), z3_cmd@] + toks.subrange(1, 1).map_values(
        |t: Seq<char>| subst(path@, t),
    ));
    let mut k: usize = 1;
    while k < elems.len()
        invariant
            1 <= k <= elems@.len(),
            toks == views(elems@),
            placeholder_s@ == placeholder(),
            views(args@) == seq![z3_flag(), z3_cmd@] + toks.subrange(1, k as int).map_values(
                |t: Seq<char>| subst(path@, t),
            ),
        decreases elems@.len() - k,
    {
        let ghost before = args@;
        let arg = if elems[k] == placeholder_s {
            String::from_str(path)
        } else {
            elems[k].clone()
        };
        args.push(arg);
        assert(views(args@) =~= views(before).push(arg@));
        assert(toks.subrange(1, k + 1) =~= toks.subrange(1, k as int).push(toks[k as int]));
        assert(views(args@) =~= seq![z3_flag(), z3_cmd@] + toks.subrange(1, k + 1).map_values(
            |t: Seq<char>| subst(path@, t),
        ));
        k = k + 1;
    }
    assert(toks.subrange(1, elems@.len() as int) =~= toks.skip(1));
    Ok(Cmd { program: String::from_str(mikino_cmd), args })
}

} // verus!
