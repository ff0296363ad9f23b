//! Picking commits: parsing candidate lines into commits, the session
//! state around a selectable list of commits, and the per-item,
//! oldest-first application plan with stop-at-first-failure semantics.

use vstd::prelude::*;
use vstd::string::StrSliceExecFns;
use crate::list::{wrap_all, selected_values, List};

verus! {

/// A commit candidate: its identifying hash and its one-line message.
#[derive(Clone, Debug)]
pub struct Commit {
    pub hash: String,
    pub message: String,
}

/// A candidate line that no commit can be parsed from: it holds no
/// space, so hash and message cannot be told apart.
pub open spec fn unsplittable(line: Seq<char>) -> bool {
    forall|j: int| 0 <= j < line.len() ==> line[j] != ' '
}

/// `c` is the commit that a candidate line denotes: the line is the
/// hash, one space, and the message, split at the line's first space.
pub open spec fn parses_to(line: Seq<char>, c: Commit) -> bool {
    let i = c.hash@.len() as int;
    &&& 0 <= i < line.len()
    &&& line[i] == ' '
    &&& c.hash@ == line.subrange(0, i)
    &&& c.message@ == line.subrange(i + 1, line.len() as int)
    &&& forall|j: int| 0 <= j < i ==> line[j] != ' '
}

impl Commit {
    /// Parse one candidate line of the form `"<hash> <message>"`. The
    /// first space is the delimiter; the message may contain further
    /// spaces. A line without a space yields nothing.
    pub fn from(line: &str) -> (r: Option<Commit>)
        ensures
            match r {
                Option::None => unsplittable(line@),
                Option::Some(c) => parses_to(line@, c),
            },
    {
        let n = line.unicode_len();
        let mut i: usize = 0;

        while i < n
            invariant
                n == line@.len(),
                i <= n,
                forall|j: int| 0 <= j < i ==> line@[j] != ' ',
            decreases n - i,
        {
            if line.get_char(i) == ' ' {
                let hash = line.substring_char(0, i).to_owned();
                let message = line.substring_char(i + 1, n).to_owned();
                return Option::Some(Commit { hash, message });
            }
            i = i + 1;
        }
        Option::None
    }
}

/// An enumeration failure: the first candidate line that no commit
/// could be parsed from.
#[derive(Clone, Debug)]
pub struct ParseError {
    pub line: String,
}

/// Parse every candidate line, in order. Parsing succeeds exactly when
/// every line holds a space; the first line without one fails the
/// whole enumeration and is named in the error.
pub fn parse_commits(lines: &Vec<String>) -> (r: Result<Vec<Commit>, ParseError>)
    ensures
        r is Ok <==> (forall|k: int| 0 <= k < lines@.len() ==> !unsplittable(lines@[k]@)),
        match r {
            Result::Ok(cs) => cs@.len() == lines@.len() && (forall|k: int|
                0 <= k < lines@.len() ==> parses_to(lines@[k]@, cs@[k])),
            Result::Err(e) => exists|k: int|
                {
                    &&& 0 <= k < lines@.len()
                    &&& unsplittable(#[trigger] lines@[k]@)
                    &&& e.line@ == lines@[k]@
                    &&& forall|j: int| 0 <= j < k ==> !unsplittable(lines@[j]@)
                },
        },
{
    let mut out: Vec<Commit> = Vec::new();
    let mut i: usize = 0;

    while i < lines.len()
        invariant
            i <= lines@.len(),
            out@.len() == i,
            forall|k: int| 0 <= k < i ==> parses_to(lines@[k]@, out@[k]),
            forall|k: int| 0 <= k < i ==> !unsplittable(lines@[k]@),
        decreases lines@.len() - i,
    {
        let line = &lines[i];
        match Commit::from(line.as_str()) {
            Option::Some(c) => {
                out.push(c);
            },
            Option::None => {
                return Result::Err(ParseError { line: line.clone() });
            },
        }
        i = i + 1;
    }
    Result::Ok(out)
}

/// The session state of the commit picker: a selectable list of
/// commits, in candidate order (newest first).
pub struct App {
    pub list: List<Commit>,
}

impl App {
    /// Open a session over the parsed candidates: all unselected, the
    /// cursor on the first commit if there is one.
    pub fn new(commits: Vec<Commit>) -> (r: App)
        ensures
            r.list.inv(),
            r.list.items@ == wrap_all(commits@),
            r.list.cursor == (if commits@.len() > 0 {
                Option::Some(0usize)
            } else {
                Option::<usize>::None
            }),
    {
        App { list: List::new(commits) }
    }

    /// End the session and keep the selected commits, in candidate
    /// order.
    pub fn selected(self) -> (r: Vec<Commit>)
        ensures
            r@ == selected_values(self.list.items@),
    {
        self.list.into_selected()
    }
}

/// A failed per-item run: the commit whose application failed. Every
/// commit before it in application order has already been applied and
/// is not rolled back; no commit after it was attempted.
#[derive(Clone, Debug)]
pub struct PickError {
    pub commit: Commit,
}

/// A per-item application run: the selected commits in the order they
/// are to be applied — the reverse of the candidate order, so oldest
/// first — and how many of them have been applied so far.
pub struct PickRun {
    pub queue: Vec<Commit>,
    pub applied: usize,
}

impl PickRun {
    /// Every commit up to `applied` has been applied; the rest wait.
    pub open spec fn inv(self) -> bool {
        self.applied <= self.queue.len()
    }

    /// Plan a run over the selected commits: reverse them into
    /// application order; nothing is applied yet.
    pub fn new(selected: Vec<Commit>) -> (r: PickRun)
        ensures
            r.inv(),
            r.queue@ == selected@.reverse(),
            r.applied == 0,
    {
        let ghost orig = selected@;
        let mut selected = selected;
        let mut queue: Vec<Commit> = Vec::new();

        while selected.len() > 0
            invariant
                selected@.len() <= orig.len(),
                selected@ == orig.take(selected@.len() as int),
                queue@ == orig.skip(selected@.len() as int).reverse(),
            decreases selected@.len(),
        {
            let ghost slen = selected@.len() as int;
            let c = selected.remove(selected.len() - 1);
            queue.push(c);
            proof {
                assert(c == orig[slen - 1]);
                assert(selected@ =~= orig.take(slen - 1));
                assert(queue@ =~= orig.skip(slen - 1).reverse());
            }
        }

        proof {
            assert(orig.skip(0) =~= orig);
        }
        PickRun { queue, applied: 0 }
    }

    /// The next commit to apply, or nothing once the whole queue has
    /// been applied — the run has then succeeded.
    pub fn next_commit(&self) -> (r: Option<&Commit>)
        requires
            self.inv(),
        ensures
            if self.applied < self.queue@.len() {
                r is Some && *r->0 == self.queue@[self.applied as int]
            } else {
                r is None
            },
    {
        if self.applied < self.queue.len() {
            Option::Some(&self.queue[self.applied])
        } else {
            Option::None
        }
    }

    /// Record that the pending application succeeded: the run moves to
    /// the next commit. The queue itself never changes.
    pub fn mark_applied(&mut self)
        requires
            old(self).inv(),
            old(self).applied < old(self).queue@.len(),
        ensures
            final(self).inv(),
            final(self).queue == old(self).queue,
            final(self).applied == old(self).applied + 1,
    {
        self.applied = self.applied + 1;
    }

    /// Record that the pending application failed: the run ends here,
    /// and the failure names exactly the commit that failed.
    pub fn failed(self) -> (e: PickError)
        requires
            self.inv(),
            self.applied < self.queue@.len(),
        ensures
            e.commit == self.queue@[self.applied as int],
    {
        let mut queue = self.queue;
        let commit = queue.remove(self.applied);
        PickError { commit }
    }
}

} // verus!
