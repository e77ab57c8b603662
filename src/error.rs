use vstd::prelude::*;

verus! {

/// The kinds of snippets that have a dedicated verifier.
#[derive(PartialEq, Eq, Structural, Clone, Copy, Debug)]
pub enum Kind {
    /// SMT-LIB 2 scripts (`.smt2`), run through an SMT solver.
    Smt2,
    /// Mikino scripts (`.mkn`), run as their first line says.
    Mikino,
}

/// A command to execute: a program and its arguments, in order.
#[derive(Clone, Debug)]
pub struct Cmd {
    pub program: String,
    pub args: Vec<String>,
}

/// Everything that stops a run.
#[derive(Debug)]
pub enum Error {
    /// A path that should be a directory is not one.
    NotADirectory { path: String },
    /// A directory could not be listed.
    DirectoryRead { path: String },
    /// An output file's name yields no base name.
    NoFileStem { path: String },
    /// An output file has no snippet file beside it.
    MissingSnippet { path: String },
    /// A snippet's name has no extension.
    MissingExtension { path: String },
    /// A snippet's extension has no verifier.
    UnknownSnippetKind { ext: String, snippet: String, out: String },
    /// The configuration says nothing about a verifier kind.
    MissingConf { kind: Kind },
    /// A scripted snippet is empty: it has no directive line.
    MissingDirective { path: String },
    /// A directive line is not what it should be: `expected` was looked for,
    /// `found` stood there instead (if anything).
    MalformedDirective { expected: String, found: Option<String> },
    /// A command could not be started.
    CommandSpawnFailed { command: Cmd },
    /// A file could not be read.
    FileReadFailed { path: String },
    /// A command's standard output differs from the expected text.
    OutputMismatch { command: Cmd, expected: String },
    /// Building the book failed.
    BookBuildFailed,
    /// Testing the book failed.
    BookTestFailed,
    /// An error that came while checking the code directory `dir`.
    InCodeDir { dir: String, cause: Box<Error> },
    /// An error that came while checking `snippet` against the output file `out`.
    InSnippet { snippet: String, out: String, cause: Box<Error> },
}

} // verus!
