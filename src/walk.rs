//! A run as a stack of pending steps: the book's build and test, then a
//! depth-first walk over the tree of its sources. The caller performs each
//! step; it lists each directory that a step asks to scan and hands the listing
//! back. Code directories come out to be checked before they are scanned
//! themselves.
use vstd::prelude::*;
use crate::check::{code_dir, visit, Entry, Visit};
use crate::names::{join, join_of};

verus! {

/// A step of a run.
#[derive(Debug)]
pub enum Step {
    /// Build the book at `path`.
    BuildBook { path: String },
    /// Run the book's own tests at `path`.
    TestBook { path: String },
    /// List the directory `path` and hand the listing to [`Walk::listed`].
    Scan { path: String },
    /// Check the files of the code directory `path`.
    CheckCode { path: String },
}

/// What a step is, with the paths as character sequences.
pub enum StepView {
    BuildBook(Seq<char>),
    TestBook(Seq<char>),
    Scan(Seq<char>),
    CheckCode(Seq<char>),
}

/// The view of a step.
pub open spec fn step_view(s: Step) -> StepView {
    match s {
        Step::BuildBook { path } => StepView::BuildBook(path@),
        Step::TestBook { path } => StepView::TestBook(path@),
        Step::Scan { path } => StepView::Scan(path@),
        Step::CheckCode { path } => StepView::CheckCode(path@),
    }
}

/// The directory of a book's sources.
pub open spec fn src_dir() -> Seq<char> {
    seq!['s', 'r', 'c']
}

/// The steps that one entry of `dir` calls for, in the order they are taken.
pub open spec fn entry_steps(dir: Seq<char>, e: Entry) -> Seq<StepView> {
    let p = join_of(dir, e.name@);
    if !e.is_dir {
        seq![]
    } else if e.name@ == code_dir() {
        seq![StepView::CheckCode(p), StepView::Scan(p)]
    } else {
        seq![StepView::Scan(p)]
    }
}

/// The steps that the entries `es` of `dir` call for, in the order they are
/// taken.
pub open spec fn listing_steps(dir: Seq<char>, es: Seq<Entry>) -> Seq<StepView>
    decreases es.len(),
{
    if es.len() == 0 {
        seq![]
    } else {
        entry_steps(dir, es[0]) + listing_steps(dir, es.drop_first())
    }
}

/// The pending steps, the next one last.
#[derive(Debug)]
pub struct Walk {
    pub pending: Vec<Step>,
}

impl Walk {
    /// The steps still to take, the next one first.
    pub open spec fn todo(&self) -> Seq<StepView> {
        self.pending@.reverse().map_values(|s: Step| step_view(s))
    }

    /// A walk over the tree rooted at `root`: its one step scans `root`.
    pub fn new(root: &str) -> (r: Walk)
        ensures
            r.todo() == seq![StepView::Scan(root@)],
    {
        let mut pending: Vec<Step> = Vec::new();
        pending.push(Step::Scan { path: String::from_str(root) });
        let r = Walk { pending };
        assert(r.todo() =~= seq![StepView::Scan(root@)]);
        r
    }

    /// Takes the next step, if any is left.
    pub fn next(&mut self) -> (r: Option<Step>)
        ensures
            old(self).todo().len() == 0 ==> r is None && final(self).todo() == old(self).todo(),
            old(self).todo().len() > 0 ==> (r matches Some(s) && step_view(s) == old(
                self,
            ).todo()[0] && final(self).todo() == old(self).todo().drop_first()),
    {
        let r = self.pending.pop();
        proof {
            if old(self).pending@.len() > 0 {
                assert(final(self).pending@ =~= old(self).pending@.drop_last());
                assert(final(self).todo() =~= old(self).todo().drop_first());
            }
        }
        r
    }

    /// Hands over the listing `entries` of the directory `dir`: the steps its
    /// subdirectories call for come next, in the listing's order, before the
    /// steps that were pending.
    pub fn listed(&mut self, dir: &str, entries: &Vec<Entry>)
        ensures
            final(self).todo() == listing_steps(dir@, entries@) + old(self).todo(),
    {
        let mut k: usize = entries.len();
        while k > 0
            invariant
                k <= entries@.len(),
                self.todo() == listing_steps(dir@, entries@.skip(k as int)) + old(self).todo(),
            decreases k,
        {
            k = k - 1;
            let ghost before = self.todo();
            assert(entries@.skip(k as int).drop_first() =~= entries@.skip(k + 1));
            let e = &entries[k];
            match visit(dir, e) {
                Visit::Ignore => {},
                Visit::Descend { path } => {
                    self.pending.push(Step::Scan { path });
                },
                Visit::CheckAndDescend { path } => {
                    let again = path.clone();
                    self.pending.push(Step::Scan { path });
                    self.pending.push(Step::CheckCode { path: again });
                },
            }
            assert(self.todo() =~= entry_steps(dir@, entries@[k as int]) + before);
        }
        assert(entries@.skip(0) =~= entries@);
    }
}

/// The steps that test the code snippets that have an output file, in the
/// tree rooted at `path`.
pub fn code_out(path: &str) -> (r: Walk)
    ensures
        r.todo() == seq![StepView::Scan(path@)],
{
    Walk::new(path)
}

/// The steps that test the book at `path`: build it, run its own tests, then
/// test the code snippets under its `src` directory.
pub fn run(path: &str) -> (r: Walk)
    ensures
        r.todo() == seq![
            StepView::BuildBook(path@),
            StepView::TestBook(path@),
            StepView::Scan(join_of(path@, src_dir())),
        ],
{
    proof {
        reveal_strlit("src");
        assert("src"@ =~= src_dir());
    }
    let mut pending: Vec<Step> = Vec::new();
    pending.push(Step::Scan { path: join(path, "src") });
    pending.push(Step::TestBook { path: String::from_str(path) });
    pending.push(Step::BuildBook { path: String::from_str(path) });
    let r = Walk { pending };
    assert(r.todo() =~= seq![
        StepView::BuildBook(path@),
        StepView::TestBook(path@),
        StepView::Scan(join_of(path@, src_dir())),
    ]);
    r
}

} // verus!
