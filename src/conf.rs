use vstd::prelude::*;
use crate::error::{Error, Kind};

verus! {

/// Test configuration: for each verifier kind, whether it is enabled and the
/// command that runs its tool.
#[derive(Clone, Debug)]
pub struct Conf<'s> {
    pub check_smt2: Option<(bool, &'s str)>,
    pub check_mikino: Option<(bool, &'s str)>,
}

impl Default for Conf<'static> {
    fn default() -> (r: Self)
        ensures
            r.check_smt2 matches Some((b, c)) && b && c@ == seq!['z', '3'],
            r.check_mikino matches Some((b, c)) && b && c@ == seq!['m', 'i', 'k', 'i', 'n', 'o'],
    {
        proof {
            reveal_strlit("z3");
            reveal_strlit("mikino");
        }
        Self { check_smt2: Some((true, "z3")), check_mikino: Some((true, "mikino")) }
    }
}

impl<'s> Conf<'s> {
    /// A configuration that says nothing about any verifier kind.
    pub fn new() -> (r: Self)
        ensures
            r.check_smt2 is None,
            r.check_mikino is None,
    {
        Self { check_smt2: None, check_mikino: None }
    }

    /// Sets whether SMT-LIB 2 snippets are checked, and with which command.
    pub fn set_smt2(self, check: bool, command: &'s str) -> (r: Self)
        ensures
            r.check_smt2 == Some((check, command)),
            r.check_mikino == self.check_mikino,
    {
        let mut s = self;
        s.check_smt2 = Some((check, command));
        s
    }

    /// Sets whether mikino snippets are checked, and with which command.
    pub fn set_mikino(self, check: bool, command: &'s str) -> (r: Self)
        ensures
            r.check_mikino == Some((check, command)),
            r.check_smt2 == self.check_smt2,
    {
        let mut s = self;
        s.check_mikino = Some((check, command));
        s
    }

    /// The entry of a kind.
    pub open spec fn entry(&self, kind: Kind) -> Option<(bool, &'s str)> {
        match kind {
            Kind::Smt2 => self.check_smt2,
            Kind::Mikino => self.check_mikino,
        }
    }

    /// The entry of a kind; an error if the configuration has none.
    pub fn get(&self, kind: Kind) -> (r: Result<(bool, &'s str), Error>)
        ensures
            self.entry(kind) matches Some(e) ==> r == Ok::<(bool, &'s str), Error>(e),
            self.entry(kind) is None ==> (r matches Err(Error::MissingConf { kind: k }) && k == kind),
    {
        let e = match kind {
            Kind::Smt2 => self.check_smt2,
            Kind::Mikino => self.check_mikino,
        };
        match e {
            Some(e) => Ok(e),
            None => Err(Error::MissingConf { kind }),
        }
    }

    /// The SMT-LIB 2 entry.
    pub fn get_smt2(&self) -> (r: Result<(bool, &'s str), Error>)
        ensures
            self.check_smt2 matches Some(e) ==> r == Ok::<(bool, &'s str), Error>(e),
            self.check_smt2 is None ==> (r matches Err(Error::MissingConf { kind: k }) && k == Kind::Smt2),
    {
        self.get(Kind::Smt2)
    }

    /// The mikino entry.
    pub fn get_mikino(&self) -> (r: Result<(bool, &'s str), Error>)
        ensures
            self.check_mikino matches Some(e) ==> r == Ok::<(bool, &'s str), Error>(e),
            self.check_mikino is None ==> (r matches Err(Error::MissingConf { kind: k }) && k == Kind::Mikino),
    {
        self.get(Kind::Mikino)
    }
}

} // verus!
