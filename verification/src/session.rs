//! The interactive reconciler session: after a full reconciliation, operator
//! statements arrive one at a time; each accepted statement and its
//! timestamp marker are appended, as a pair, to both the log and the file,
//! and a rejected statement changes nothing.
//!
//! The caller owns the blocking input loop and the database transaction: it
//! executes each statement, and reports the outcome here so the model of log
//! and file advances exactly as the durable state did.
use vstd::prelude::*;

verus! {

/// How many of the trailing reconciled lines are echoed when a session opens.
pub const REPLAY_WINDOW: usize = 20;

/// What became of one operator statement: applied and committed inside its
/// transaction, or rejected with the transaction discarded.
#[derive(Debug, Clone, Copy, PartialEq, Eq)]
pub enum StatementOutcome {
    Accepted,
    Rejected,
}

/// A session over a fully reconciled pair: log and file hold the same lines,
/// and every accepted statement extends both by the same two lines.
pub struct Session {
    log: Vec<String>,
    file: Vec<String>,
}

impl Session {
    /// The logged statement texts, in position order.
    pub closed spec fn logged(self) -> Seq<Seq<char>> {
        self.log.deep_view()
    }

    /// The file's lines.
    pub closed spec fn file_lines(self) -> Seq<Seq<char>> {
        self.file.deep_view()
    }

    /// The session invariant: file and log never disagree.
    pub open spec fn wf(self) -> bool {
        self.logged() == self.file_lines()
    }

    /// Opens a session on the reconciled statement list, which is both the
    /// log's and the file's current content.
    pub fn begin(lines: Vec<String>) -> (s: Session)
        ensures
            s.wf(),
            s.logged() == lines.deep_view(),
            s.file_lines() == lines.deep_view(),
    {
        let copy = lines.clone();
        proof {
            assert forall|i: int| 0 <= i < lines@.len() implies copy@[i] == lines@[i] by {
                assert(cloned::<String>(lines@[i], copy@[i]));
            }
            assert(copy@ =~= lines@);
        }
        Session { log: lines, file: copy }
    }

    /// The position the next accepted statement will be logged at.
    pub fn next_position(&self) -> (p: usize)
        ensures
            p == self.logged().len(),
    {
        self.log.len()
    }

    /// Records the outcome of one operator statement. An accepted statement
    /// appends exactly two lines, the statement and its timestamp marker, to
    /// both log and file, advancing the next position by two; a rejected one
    /// leaves the session exactly as it was.
    pub fn record_outcome(
        &mut self,
        statement: String,
        marker: String,
        outcome: StatementOutcome,
    )
        requires
            old(self).wf(),
        ensures
            final(self).wf(),
            outcome is Accepted ==> {
                &&& final(self).logged() == old(self).logged().push(statement@).push(marker@)
                &&& final(self).file_lines() == old(self).file_lines().push(statement@).push(
                    marker@,
                )
                &&& final(self).logged().len() == old(self).logged().len() + 2
            },
            outcome is Rejected ==> *final(self) == *old(self),
    {
        match outcome {
            StatementOutcome::Accepted => {
                let statement_line = statement.clone();
                let marker_line = marker.clone();
                self.log.push(statement);
                self.log.push(marker);
                self.file.push(statement_line);
                self.file.push(marker_line);
                proof {
                    assert(self.log.deep_view() =~= old(self).log.deep_view().push(
                        statement@,
                    ).push(marker@));
                    assert(self.file.deep_view() =~= old(self).file.deep_view().push(
                        statement@,
                    ).push(marker@));
                }
            },
            StatementOutcome::Rejected => {},
        }
    }

    /// The session's statement list, identical in log and file.
    pub fn lines(&self) -> (r: &Vec<String>)
        ensures
            r.deep_view() == self.logged(),
    {
        &self.log
    }
}

/// Where the echo of a reconciled list's tail starts: the last
/// [`REPLAY_WINDOW`] lines, or the whole list when it is shorter than that.
pub fn replay_window_start(len: usize) -> (r: usize)
    ensures
        r == if len >= REPLAY_WINDOW { len - REPLAY_WINDOW } else { 0int },
{
    if len >= REPLAY_WINDOW {
        len - REPLAY_WINDOW
    } else {
        0
    }
}

} // verus!
