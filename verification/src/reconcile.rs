//! The reconciler: the line-indexed comparison between the file's statement
//! sequence and the log's statement sequence, and the step-by-step advance
//! that applies the file's pending suffix one statement at a time.
//!
//! The caller reads the log and the file, builds a [`Reconciler`], and then
//! alternates [`Reconciler::next_statement`] (the statement to execute and
//! log atomically) with [`Reconciler::commit_next`] (recorded once that
//! atomic step is durable). A failure mid-run leaves the log a contiguous,
//! matching prefix of the file: safely resumable.
use vstd::prelude::*;

use crate::errors::RevError;

verus! {

/// The first `k` lines of log and file agree byte for byte.
pub open spec fn matches_to(log: Seq<Seq<char>>, file: Seq<Seq<char>>, k: int) -> bool {
    forall|i: int| 0 <= i < k ==> #[trigger] log[i] == file[i]
}

/// The length of the prefix both sides share: `min(|log|, |file|)`.
pub open spec fn common_len(log: Seq<Seq<char>>, file: Seq<Seq<char>>) -> int {
    if log.len() <= file.len() {
        log.len() as int
    } else {
        file.len() as int
    }
}

/// No already-applied position disagrees between log and file.
pub open spec fn conflict_free(log: Seq<Seq<char>>, file: Seq<Seq<char>>) -> bool {
    matches_to(log, file, common_len(log, file))
}

/// `i` is the least position at which log and file disagree.
pub open spec fn is_first_conflict(
    log: Seq<Seq<char>>,
    file: Seq<Seq<char>>,
    i: int,
) -> bool {
    &&& 0 <= i < common_len(log, file)
    &&& log[i] != file[i]
    &&& matches_to(log, file, i)
}

/// The file lines not yet logged: the suffix past the log's length.
pub open spec fn pending(log: Seq<Seq<char>>, file: Seq<Seq<char>>) -> Seq<Seq<char>> {
    file.skip(log.len() as int)
}

/// A reconciliation in progress: the log is always a matching prefix of the
/// file, and grows toward it one committed statement at a time.
#[derive(Debug)]
pub struct Reconciler {
    log: Vec<String>,
    file: Vec<String>,
}

impl Reconciler {
    /// The statements logged so far, in position order.
    pub closed spec fn logged(self) -> Seq<Seq<char>> {
        self.log.deep_view()
    }

    /// The file's lines, the desired end state.
    pub closed spec fn file_lines(self) -> Seq<Seq<char>> {
        self.file.deep_view()
    }

    /// The reconciler's invariant: the log is a matching prefix of the file.
    pub open spec fn wf(self) -> bool {
        &&& self.logged().len() <= self.file_lines().len()
        &&& matches_to(self.logged(), self.file_lines(), self.logged().len() as int)
    }

    /// Compares log and file over their common prefix. Succeeds exactly when
    /// they agree there and the file is at least as long as the log; reports
    /// the least divergent position as a conflict, and a file shorter than
    /// the log (with no conflict before the file's end) as stale.
    pub fn new(
        log: Vec<String>,
        file: Vec<String>,
        file_path: String,
        target: String,
    ) -> (r: Result<Reconciler, RevError>)
        ensures
            match r {
                Ok(rec) => {
                    &&& rec.wf()
                    &&& rec.logged() == log.deep_view()
                    &&& rec.file_lines() == file.deep_view()
                    &&& conflict_free(log.deep_view(), file.deep_view())
                    &&& log.deep_view().len() <= file.deep_view().len()
                },
                Err(e) => match e {
                    RevError::Conflict {
                        position,
                        file_text,
                        log_text,
                        file_path: reported_path,
                        target: reported_target,
                    } => {
                        &&& is_first_conflict(log.deep_view(), file.deep_view(), position as int)
                        &&& log_text@ == log.deep_view()[position as int]
                        &&& file_text@ == file.deep_view()[position as int]
                        &&& reported_path@ == file_path@
                        &&& reported_target@ == target@
                    },
                    RevError::StaleFile { file_path: reported_path } => {
                        &&& conflict_free(log.deep_view(), file.deep_view())
                        &&& file.deep_view().len() < log.deep_view().len()
                        &&& reported_path@ == file_path@
                    },
                    _ => false,
                },
            },
    {
        let n = log.len();
        let m = file.len();
        let common = if n <= m { n } else { m };
        let mut i: usize = 0;
        while i < common
            invariant
                i <= common,
                common <= n && common <= m,
                common == common_len(log.deep_view(), file.deep_view()),
                n == log@.len(),
                m == file@.len(),
                matches_to(log.deep_view(), file.deep_view(), i as int),
            decreases common - i,
        {
            if !(log[i] == file[i]) {
                proof {
                    assert(log.deep_view()[i as int] == log@[i as int]@);
                    assert(file.deep_view()[i as int] == file@[i as int]@);
                }
                return Err(RevError::Conflict {
                    position: i as u64,
                    file_text: file[i].clone(),
                    log_text: log[i].clone(),
                    file_path,
                    target,
                });
            }
            proof {
                assert(log.deep_view()[i as int] == log@[i as int]@);
                assert(file.deep_view()[i as int] == file@[i as int]@);
            }
            i += 1;
        }
        if m < n {
            return Err(RevError::StaleFile { file_path });
        }
        Ok(Reconciler { log, file })
    }

    /// How many file lines are still unapplied.
    pub fn pending_count(&self) -> (k: usize)
        requires
            self.wf(),
        ensures
            k == pending(self.logged(), self.file_lines()).len(),
    {
        self.file.len() - self.log.len()
    }

    /// Whether the log has caught up with the file.
    pub fn is_complete(&self) -> (b: bool)
        requires
            self.wf(),
        ensures
            b <==> self.logged() == self.file_lines(),
    {
        let b = self.log.len() == self.file.len();
        proof {
            if b {
                assert(self.logged() =~= self.file_lines());
            }
        }
        b
    }

    /// The next statement to apply and the position it must be logged at, or
    /// `None` once the log equals the file.
    pub fn next_statement(&self) -> (r: Option<(u64, String)>)
        requires
            self.wf(),
        ensures
            match r {
                None => self.logged() == self.file_lines(),
                Some((p, s)) => {
                    &&& p == self.logged().len()
                    &&& self.logged().len() < self.file_lines().len()
                    &&& s@ == self.file_lines()[p as int]
                },
            },
    {
        if self.log.len() < self.file.len() {
            let idx = self.log.len();
            let s = self.file[idx].clone();
            proof {
                assert(self.file.deep_view()[idx as int] == self.file@[idx as int]@);
            }
            Some((idx as u64, s))
        } else {
            proof {
                assert(self.logged() =~= self.file_lines());
            }
            None
        }
    }

    /// Records that the next pending statement was applied and logged as one
    /// durable unit: the log grows by exactly that line, the file does not
    /// change, and the log stays a matching prefix of the file.
    pub fn commit_next(&mut self)
        requires
            old(self).wf(),
            old(self).logged().len() < old(self).file_lines().len(),
        ensures
            final(self).wf(),
            final(self).file_lines() == old(self).file_lines(),
            final(self).logged() == old(self).logged().push(
                old(self).file_lines()[old(self).logged().len() as int],
            ),
    {
        let idx = self.log.len();
        let s = self.file[idx].clone();
        self.log.push(s);
        proof {
            assert(self.file.deep_view()[idx as int] == self.file@[idx as int]@);
            assert(self.log.deep_view() =~= old(self).log.deep_view().push(
                old(self).file.deep_view()[idx as int],
            ));
        }
    }

    /// Hands back the reconciled statement list once the run is complete; it
    /// equals the file line for line.
    pub fn reconciled(self) -> (r: Vec<String>)
        requires
            self.wf(),
            self.logged() == self.file_lines(),
        ensures
            r.deep_view() == self.file_lines(),
    {
        self.log
    }
}

/// Law: against an empty log no conflict and no staleness is possible, and
/// every line of the file is pending, so one full run applies the file's
/// lines in order and nothing else.
pub proof fn lemma_empty_log_reconciles(file: Seq<Seq<char>>)
    ensures
        conflict_free(Seq::<Seq<char>>::empty(), file),
        pending(Seq::<Seq<char>>::empty(), file) == file,
{
    assert(pending(Seq::<Seq<char>>::empty(), file) =~= file);
}

/// Law: once every pending statement is committed, the log equals the file:
/// a log that is a matching prefix of the file, extended by the file's
/// unapplied suffix, is the file itself.
pub proof fn lemma_full_apply_equals_file(log: Seq<Seq<char>>, file: Seq<Seq<char>>)
    requires
        log.len() <= file.len(),
        matches_to(log, file, log.len() as int),
    ensures
        log + pending(log, file) == file,
{
    assert(log + pending(log, file) =~= file);
}

/// Law (idempotence): reconciling a log against the very file it was built
/// from finds no conflict and leaves nothing pending, so a second run right
/// after a successful one executes and logs nothing.
pub proof fn lemma_reconcile_idempotent(file: Seq<Seq<char>>)
    ensures
        conflict_free(file, file),
        pending(file, file) == Seq::<Seq<char>>::empty(),
{
    assert(pending(file, file) =~= Seq::<Seq<char>>::empty());
}

/// Law (conflict detection): take a reconciled state, where the log is a
/// matching prefix of the file, and change any already-logged line of the
/// file to something else; the next reconciliation reports a conflict at
/// exactly that position.
pub proof fn lemma_edit_of_logged_line_conflicts(
    log: Seq<Seq<char>>,
    file: Seq<Seq<char>>,
    i: int,
    line: Seq<char>,
)
    requires
        log.len() <= file.len(),
        matches_to(log, file, log.len() as int),
        0 <= i < log.len(),
        line != log[i],
    ensures
        is_first_conflict(log, file.update(i, line), i),
{
    let edited = file.update(i, line);
    assert forall|j: int| 0 <= j < i implies #[trigger] log[j] == edited[j] by {
        assert(log[j] == file[j]);
    }
    assert(log[i] != edited[i]);
}

} // verus!
