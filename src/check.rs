//! The decisions of a run: which directories to scan and check, what each
//! file of a code directory calls for, and how each check ends.
use vstd::prelude::*;
use crate::conf::Conf;
use crate::directive::{
    directive_args, directive_words, marker, mikino_word, retrieve_mkn_cmd, views,
};
use crate::error::{Cmd, Error, Kind};
use crate::names::{ext_of, extension, file_stem, join, join_of, names_file, stem_of};

verus! {

/// One entry of a directory listing: its name and whether it is a directory.
#[derive(Clone, Debug)]
pub struct Entry {
    pub name: String,
    pub is_dir: bool,
}

/// The reserved name of the directories whose files are checked.
pub open spec fn code_dir() -> Seq<char> {
    seq!['c', 'o', 'd', 'e']
}

/// The extension of output files.
pub open spec fn out_ext() -> Seq<char> {
    seq!['o', 'u', 't']
}

/// The line prefix of directives in mikino snippets: a line comment.
pub open spec fn comment() -> Seq<char> {
    seq!['/', '/']
}

/// The extension of the files that the book's own test step checks.
pub open spec fn exempt_ext() -> Seq<char> {
    seq!['r', 's']
}

/// The verifier kind of a snippet extension, if it has one.
pub open spec fn kind_of_ext(e: Seq<char>) -> Option<Kind> {
    if e == seq!['s', 'm', 't', '2'] {
        Some(Kind::Smt2)
    } else if e == seq!['m', 'k', 'n'] {
        Some(Kind::Mikino)
    } else {
        None
    }
}

/// Whether the listing holds a file (not a directory) named `name`.
pub open spec fn has_file(entries: Seq<Entry>, name: Seq<char>) -> bool {
    exists|i: int| 0 <= i < entries.len() && !entries[i].is_dir && #[trigger] entries[i].name@ == name
}

/// The path of the output file of the file `name` of `dir`.
pub open spec fn out_path(dir: Seq<char>, name: Seq<char>) -> Seq<char> {
    join_of(dir, name + seq!['.'] + out_ext())
}

/// Whether a file name is that of an output file.
pub open spec fn is_out_name(name: Seq<char>) -> bool {
    ext_of(name) == Some(out_ext())
}

/// What to do with an entry of a directory that is being scanned.
#[derive(Debug)]
pub enum Visit {
    /// A file: nothing at this level.
    Ignore,
    /// A directory: scan it.
    Descend { path: String },
    /// A code directory: check its files, then scan it like any other.
    CheckAndDescend { path: String },
}

/// What an entry of a code directory calls for.
#[derive(Debug)]
pub enum Task {
    /// A directory: nothing.
    Nothing,
    /// A plain file named `name`: audit it for a missing output file, whose
    /// path would be `out`.
    Audit { name: String, out: String },
    /// An output file: check `snippet` with the verifier of `kind` against `out`.
    Check { snippet: String, out: String, kind: Kind },
}

/// A remark on a plain file that cannot be checked.
#[derive(Debug)]
pub enum Warning {
    /// `file` has no output file.
    NoOutputFile { file: String },
    /// The output path `out` of `file` is a directory.
    OutputIsDirectory { file: String, out: String },
}

fn str_eq(a: &str, b: &str) -> (r: bool)
    ensures
        r == (a@ == b@),
{
    String::from_str(a) == String::from_str(b)
}

/// Decides what a scan does with one entry of the directory `dir`.
pub fn visit(dir: &str, entry: &Entry) -> (r: Visit)
    ensures
        !entry.is_dir ==> r is Ignore,
        entry.is_dir && entry.name@ == code_dir() ==> (r matches Visit::CheckAndDescend { path }
            && path@ == join_of(dir@, entry.name@)),
        entry.is_dir && entry.name@ != code_dir() ==> (r matches Visit::Descend { path } && path@
            == join_of(dir@, entry.name@)),
{
    proof {
        reveal_strlit("code");
        assert("code"@ =~= code_dir());
    }
    if !entry.is_dir {
        return Visit::Ignore;
    }
    let path = join(dir, entry.name.as_str());
    if str_eq(entry.name.as_str(), "code") {
        Visit::CheckAndDescend { path }
    } else {
        Visit::Descend { path }
    }
}

fn find_file(entries: &Vec<Entry>, name: &str) -> (r: bool)
    ensures
        r == has_file(entries@, name@),
{
    let mut i: usize = 0;
    while i < entries.len()
        invariant
            i <= entries@.len(),
            forall|j: int| 0 <= j < i ==> !(!entries@[j].is_dir && #[trigger] entries@[j].name@ == name@),
        decreases entries@.len() - i,
    {
        if !entries[i].is_dir && str_eq(entries[i].name.as_str(), name) {
            return true;
        }
        i = i + 1;
    }
    false
}

/// Classifies the output file `out_name` of the code directory `dir`, whose
/// listing is `entries`: finds its snippet (the name without `.out`, which must
/// be a file of the listing) and the verifier kind of the snippet's extension.
/// Returns the snippet's path and the kind.
pub fn classify(dir: &str, out_name: &str, entries: &Vec<Entry>) -> (r: Result<(String, Kind), Error>)
    ensures
        !names_file(out_name@) ==> (r matches Err(Error::NoFileStem { path }) && path@ == join_of(
            dir@,
            out_name@,
        )),
        names_file(out_name@) ==> {
            let stem = stem_of(out_name@);
            let snippet = join_of(dir@, stem);
            if !has_file(entries@, stem) {
                r matches Err(Error::MissingSnippet { path }) && path@ == snippet
            } else if ext_of(stem) is None {
                r matches Err(Error::MissingExtension { path }) && path@ == snippet
            } else if kind_of_ext(ext_of(stem)->Some_0) is None {
                r matches Err(Error::UnknownSnippetKind { ext, snippet: s, out }) && ext@ == ext_of(
                    stem,
                )->Some_0 && s@ == snippet && out@ == join_of(dir@, out_name@)
            } else {
                r matches Ok((s, k)) && s@ == snippet && Some(k) == kind_of_ext(
                    ext_of(stem)->Some_0,
                )
            }
        },
{
    proof {
        reveal_strlit("smt2");
        reveal_strlit("mkn");
        assert("smt2"@ =~= seq!['s', 'm', 't', '2']);
        assert("mkn"@ =~= seq!['m', 'k', 'n']);
    }
    let stem = match file_stem(out_name) {
        Some(s) => s,
        None => {
            return Err(Error::NoFileStem { path: join(dir, out_name) });
        },
    };
    let snippet = join(dir, stem.as_str());
    if !find_file(entries, stem.as_str()) {
        return Err(Error::MissingSnippet { path: snippet });
    }
    let ext = match extension(stem.as_str()) {
        Some(e) => e,
        None => {
            return Err(Error::MissingExtension { path: snippet });
        },
    };
    if str_eq(ext.as_str(), "smt2") {
        Ok((snippet, Kind::Smt2))
    } else if str_eq(ext.as_str(), "mkn") {
        Ok((snippet, Kind::Mikino))
    } else {
        Err(Error::UnknownSnippetKind { ext, snippet, out: join(dir, out_name) })
    }
}

/// Decides what one entry of the code directory `dir`, whose listing is
/// `entries`, calls for: nothing for a directory, a check for an output file,
/// an audit for any other file.
pub fn code_out_task(dir: &str, entry: &Entry, entries: &Vec<Entry>) -> (r: Result<Task, Error>)
    ensures
        entry.is_dir ==> r matches Ok(Task::Nothing),
        !entry.is_dir && !is_out_name(entry.name@) ==> (r matches Ok(Task::Audit { name, out })
            && name@ == entry.name@ && out@ == out_path(dir@, entry.name@)),
        !entry.is_dir && is_out_name(entry.name@) ==> {
            let stem = stem_of(entry.name@);
            &&& has_file(entries@, stem) && ext_of(stem) is Some && kind_of_ext(
                ext_of(stem)->Some_0,
            ) is Some ==> (r matches Ok(Task::Check { snippet, out, kind }) && snippet@
                == join_of(dir@, stem) && out@ == join_of(dir@, entry.name@) && Some(kind)
                == kind_of_ext(ext_of(stem)->Some_0))
            &&& !has_file(entries@, stem) ==> (r matches Err(Error::MissingSnippet { path })
                && path@ == join_of(dir@, stem))
            &&& has_file(entries@, stem) && ext_of(stem) is None ==> (r matches Err(
                Error::MissingExtension { path },
            ) && path@ == join_of(dir@, stem))
            &&& has_file(entries@, stem) && ext_of(stem) is Some && kind_of_ext(
                ext_of(stem)->Some_0,
            ) is None ==> (r matches Err(Error::UnknownSnippetKind { ext, snippet, out }) && ext@
                == ext_of(stem)->Some_0 && snippet@ == join_of(dir@, stem) && out@ == join_of(
                dir@,
                entry.name@,
            ))
        },
{
    proof {
        reveal_strlit("out");
        assert("out"@ =~= out_ext());
    }
    if entry.is_dir {
        return Ok(Task::Nothing);
    }
    let name = entry.name.as_str();
    let is_out = match extension(name) {
        Some(e) => str_eq(e.as_str(), "out"),
        None => false,
    };
    if !is_out {
        return Ok(Task::Audit { name: entry.name.clone(), out: out_path_of(dir, name) });
    }
    match classify(dir, name, entries) {
        Ok((snippet, kind)) => Ok(Task::Check { snippet, out: join(dir, name), kind }),
        Err(e) => Err(e),
    }
}

/// The path of the output file of the file `name` of `dir`.
pub fn out_path_of(dir: &str, name: &str) -> (r: String)
    ensures
        r@ == out_path(dir@, name@),
{
    proof {
        reveal_strlit(".out");
        assert(name@ + ".out"@ =~= name@ + seq!['.'] + out_ext());
    }
    let file = String::from_str(name).concat(".out");
    join(dir, file.as_str())
}

/// Audits the plain file `name` of the code directory `parent`, given whether
/// its output path exists and whether it is a directory. Files with the
/// extension `rs` are checked by the book's own tests and need no output file.
pub fn warn_if_not_tested(parent: &str, name: &str, out_exists: bool, out_is_dir: bool) -> (r:
    Option<Warning>)
    ensures
        ext_of(name@) == Some(exempt_ext()) ==> r is None,
        ext_of(name@) != Some(exempt_ext()) && !out_exists ==> (r matches Some(
            Warning::NoOutputFile { file },
        ) && file@ == join_of(parent@, name@)),
        ext_of(name@) != Some(exempt_ext()) && out_exists && out_is_dir ==> (r matches Some(
            Warning::OutputIsDirectory { file, out },
        ) && file@ == join_of(parent@, name@) && out@ == out_path(parent@, name@)),
        ext_of(name@) != Some(exempt_ext()) && out_exists && !out_is_dir ==> r is None,
{
    proof {
        reveal_strlit("rs");
        assert("rs"@ =~= exempt_ext());
    }
    let exempt = match extension(name) {
        Some(e) => str_eq(e.as_str(), "rs"),
        None => false,
    };
    if exempt {
        None
    } else if !out_exists {
        Some(Warning::NoOutputFile { file: join(parent, name) })
    } else if out_is_dir {
        Some(Warning::OutputIsDirectory { file: join(parent, name), out: out_path_of(parent, name) })
    } else {
        None
    }
}

/// The command that checks the SMT-LIB 2 snippet `snippet`: the configured
/// solver run on it, or `None` when such checks are disabled.
pub fn code_out_check_smt2(conf: &Conf, snippet: &str) -> (r: Result<Option<Cmd>, Error>)
    ensures
        conf.check_smt2 is None ==> (r matches Err(Error::MissingConf { kind }) && kind
            == Kind::Smt2),
        conf.check_smt2 matches Some((false, _)) ==> r matches Ok(None),
        conf.check_smt2 is Some && conf.check_smt2->Some_0.0 ==> (r matches Ok(Some(c))
            && c.program@ == conf.check_smt2->Some_0.1@ && views(c.args@) == seq![snippet@]),
{
    let (check, z3_cmd) = match conf.get_smt2() {
        Ok(e) => e,
        Err(e) => {
            return Err(e);
        },
    };
    if !check {
        return Ok(None);
    }
    let mut args: Vec<String> = Vec::new();
    args.push(String::from_str(snippet));
    assert(views(args@) =~= seq![snippet@]);
    Ok(Some(Cmd { program: String::from_str(z3_cmd), args }))
}

/// The tools that check a mikino snippet: the mikino command and the solver
/// command handed to it, or `None` when such checks are disabled.
pub fn code_out_check_mkn<'s>(conf: &Conf<'s>) -> (r: Result<Option<(&'s str, &'s str)>, Error>)
    ensures
        conf.check_mikino is None ==> (r matches Err(Error::MissingConf { kind }) && kind
            == Kind::Mikino),
        conf.check_mikino matches Some((false, _)) ==> r matches Ok(None),
        conf.check_mikino is Some && conf.check_mikino->Some_0.0 ==> {
            &&& conf.check_smt2 is None ==> (r matches Err(Error::MissingConf { kind }) && kind
                == Kind::Smt2)
            &&& conf.check_smt2 is Some ==> r == Ok::<Option<(&'s str, &'s str)>, Error>(
                Some((conf.check_mikino->Some_0.1, conf.check_smt2->Some_0.1)),
            )
        },
{
    let (check, mikino_cmd) = match conf.get_mikino() {
        Ok(e) => e,
        Err(e) => {
            return Err(e);
        },
    };
    if !check {
        return Ok(None);
    }
    match conf.get_smt2() {
        Ok((_, z3_cmd)) => Ok(Some((mikino_cmd, z3_cmd))),
        Err(e) => Err(e),
    }
}

/// The command that checks the mikino snippet `snippet` whose first line is
/// `first_line`, in the snippets' comment syntax `//`.
pub fn mkn_cmd(mikino_cmd: &str, z3_cmd: &str, snippet: &str, first_line: Option<&str>) -> (r:
    Result<Cmd, Error>)
    ensures
        first_line is None ==> (r matches Err(Error::MissingDirective { path }) && path@
            == snippet@),
        first_line is Some ==> {
            let l = first_line->Some_0@;
            let toks = directive_words(l, comment());
            if !(comment() + marker()).is_prefix_of(l) {
                r matches Err(Error::MalformedDirective { expected: e, found: None }) && e@
                    == comment() + marker()
            } else if toks.len() == 0 {
                r matches Err(Error::MalformedDirective { expected: e, found: None }) && e@
                    == mikino_word()
            } else if toks[0] != mikino_word() {
                r matches Err(Error::MalformedDirective { expected: e, found: Some(f) }) && e@
                    == mikino_word() && f@ == toks[0]
            } else {
                r matches Ok(c) && c.program@ == mikino_cmd@ && views(c.args@) == directive_args(
                    z3_cmd@,
                    snippet@,
                    l,
                    comment(),
                )
            }
        },
{
    proof {
        reveal_strlit("//");
        assert("//"@ =~= comment());
    }
    retrieve_mkn_cmd(mikino_cmd, z3_cmd, snippet, first_line, "//")
}

/// Compares the standard output of `command` with the expected text read from
/// its output file: `Ok` exactly when they are equal, character for character.
pub fn cmd_output_same_as_file_content(command: Cmd, stdout: &str, expected: String) -> (r: Result<
    (),
    Error,
>)
    ensures
        stdout@ == expected@ ==> r is Ok,
        stdout@ != expected@ ==> (r matches Err(Error::OutputMismatch { command: c, expected: e })
            && c == command && e@ == expected@),
{
    if String::from_str(stdout) == expected {
        Ok(())
    } else {
        Err(Error::OutputMismatch { command, expected })
    }
}

} // verus!
