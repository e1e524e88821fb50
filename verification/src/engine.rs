//! The scan engine: a work queue of directories pending classification, the
//! in-flight counter used to detect completion when the total amount of work
//! is unknown up front, the first-error-wins abort signal, and result
//! aggregation in either of its two modes (print each dirty repository, or
//! count them and report a single total at the end).
//!
//! The engine is a state machine over plain values. A driver — concurrent
//! workers behind a lock, or the verified in-memory driver in `scan` —
//! dequeues a task, performs the filesystem or subprocess work outside the
//! library, and hands the outcome back through one of the transition
//! methods. Every transition states exactly how it moves the state, so any
//! driver that respects the preconditions inherits the completion and
//! aggregation guarantees.

use vstd::prelude::*;

use crate::vcs::{make_header, spec_header, VcsKind};

verus! {

/// Shared state of one scan run.
///
/// `queue` holds directories awaiting classification; `in_flight` counts
/// tasks dequeued but not yet resolved; `pending_status` counts matched
/// repositories whose status command has not yet reported back; `dirty`
/// counts repositories whose status output was non-empty. The two ghost
/// logs record which directories were classified and which were flagged
/// dirty, so that contracts can speak about whole runs.
pub struct Engine {
    /// Directories still to classify; dequeued from the back.
    pub queue: Vec<String>,
    /// Tasks dequeued but not yet resolved (matched or expanded).
    pub in_flight: u64,
    /// Matched repositories whose status result has not been reported yet.
    pub pending_status: u64,
    /// Repositories reported with non-empty combined status output.
    pub dirty: u64,
    /// True in count mode: suppress per-result output, print one total.
    pub count_mode: bool,
    /// First-error-wins abort signal; once set, no new work is handed out.
    pub aborted: bool,
    /// Every directory resolved so far, in resolution order.
    pub classified: Ghost<Seq<Seq<char>>>,
    /// Every repository flagged dirty so far, in completion order.
    pub flagged: Ghost<Seq<(Seq<char>, VcsKind)>>,
}

impl Engine {
    /// The engine's internal invariant: the dirty counter always equals the
    /// number of flagged repositories.
    pub open spec fn wf(self) -> bool {
        self.dirty == self.flagged@.len()
    }

    /// The paths of the flagged repositories, without their VCS kinds.
    pub open spec fn flagged_paths(self) -> Seq<Seq<char>> {
        self.flagged@.map_values(|e: (Seq<char>, VcsKind)| e.0)
    }

    /// The completion condition: the scan is done exactly when the queue is
    /// empty, no task is in flight, no status result is outstanding, and no
    /// fatal error occurred. Queue emptiness and the in-flight counter must
    /// be observed together: either alone can be zero while a worker is
    /// about to produce more work.
    pub open spec fn spec_complete(self) -> bool {
        &&& self.queue@.len() == 0
        &&& self.in_flight == 0
        &&& self.pending_status == 0
        &&& !self.aborted
    }

    /// What count mode is allowed to print: the final tally, and only once
    /// the run has fully completed without a fatal error.
    pub open spec fn spec_final_count(self) -> Option<u64> {
        if self.spec_complete() && self.count_mode {
            Some(self.dirty)
        } else {
            None
        }
    }

    /// Starts a run over the given root directories in the given mode.
    pub fn new(roots: Vec<String>, count_mode: bool) -> (e: Engine)
        ensures
            e.wf(),
            e.queue == roots,
            e.in_flight == 0,
            e.pending_status == 0,
            e.dirty == 0,
            e.count_mode == count_mode,
            !e.aborted,
            e.classified@ == Seq::<Seq<char>>::empty(),
            e.flagged@ == Seq::<(Seq<char>, VcsKind)>::empty(),
    {
        Engine {
            queue: roots,
            in_flight: 0,
            pending_status: 0,
            dirty: 0,
            count_mode,
            aborted: false,
            classified: Ghost(Seq::empty()),
            flagged: Ghost(Seq::empty()),
        }
    }

    /// Hands out the next directory to classify, marking it in flight; hands
    /// out nothing when the queue is empty or the run has been aborted — an
    /// aborted engine stops the creation of new work.
    pub fn next_task(&mut self) -> (r: Option<String>)
        requires
            old(self).wf(),
            old(self).in_flight < u64::MAX,
        ensures
            final(self).wf(),
            old(self).aborted || old(self).queue@.len() == 0 ==> {
                &&& r is None
                &&& *final(self) == *old(self)
            },
            !old(self).aborted && old(self).queue@.len() > 0 ==> {
                &&& r == Some(old(self).queue@.last())
                &&& final(self).queue@ == old(self).queue@.drop_last()
                &&& final(self).in_flight == old(self).in_flight + 1
                &&& final(self).pending_status == old(self).pending_status
                &&& final(self).dirty == old(self).dirty
                &&& final(self).count_mode == old(self).count_mode
                &&& !final(self).aborted
                &&& final(self).classified == old(self).classified
                &&& final(self).flagged == old(self).flagged
            },
    {
        if self.aborted || self.queue.len() == 0 {
            return None;
        }
        match self.queue.pop() {
            None => None,
            Some(path) => {
                self.in_flight = self.in_flight + 1;
                proof {
                    assert(self.queue@ =~= old(self).queue@.drop_last());
                }
                Some(path)
            }
        }
    }

    /// Resolves an in-flight task that matched a VCS marker: the directory
    /// is classified, a status run becomes outstanding, and — the key
    /// short-circuit — the queue is left untouched, so nothing below a
    /// working-copy root is ever scheduled.
    pub fn resolve_matched(&mut self, path: &String, kind: VcsKind)
        requires
            old(self).wf(),
            old(self).in_flight > 0,
            old(self).pending_status < u64::MAX,
        ensures
            final(self).wf(),
            final(self).queue == old(self).queue,
            final(self).in_flight == old(self).in_flight - 1,
            final(self).pending_status == old(self).pending_status + 1,
            final(self).dirty == old(self).dirty,
            final(self).count_mode == old(self).count_mode,
            final(self).aborted == old(self).aborted,
            final(self).classified@ == old(self).classified@.push(path@),
            final(self).flagged == old(self).flagged,
    {
        self.in_flight = self.in_flight - 1;
        self.pending_status = self.pending_status + 1;
        proof {
            self.classified@ = self.classified@.push(path@);
        }
    }

    /// Resolves an in-flight task that matched no marker: the directory is
    /// classified as unclassified and its subdirectories are committed to
    /// the queue before the in-flight counter drops, so a completion check
    /// can never run between the decrement and the enqueues.
    pub fn resolve_expanded(&mut self, path: &String, children: Vec<String>)
        requires
            old(self).wf(),
            old(self).in_flight > 0,
        ensures
            final(self).wf(),
            final(self).queue@ == old(self).queue@ + children@,
            final(self).in_flight == old(self).in_flight - 1,
            final(self).pending_status == old(self).pending_status,
            final(self).dirty == old(self).dirty,
            final(self).count_mode == old(self).count_mode,
            final(self).aborted == old(self).aborted,
            final(self).classified@ == old(self).classified@.push(path@),
            final(self).flagged == old(self).flagged,
    {
        let mut incoming = children;
        self.queue.append(&mut incoming);
        self.in_flight = self.in_flight - 1;
        proof {
            self.classified@ = self.classified@.push(path@);
        }
    }

    /// Takes the captured output of one status command. A repository is
    /// dirty exactly when the combined output is non-empty; a dirty one is
    /// flagged and counted, and in output mode its header line is returned
    /// for printing. In count mode nothing is ever returned: per-result
    /// output is suppressed.
    pub fn report_status(
        &mut self,
        path: &String,
        kind: VcsKind,
        out_bytes: &Vec<u8>,
        err_bytes: &Vec<u8>,
    ) -> (r: Option<String>)
        requires
            old(self).wf(),
            old(self).pending_status > 0,
            old(self).dirty < u64::MAX,
        ensures
            final(self).wf(),
            final(self).queue == old(self).queue,
            final(self).in_flight == old(self).in_flight,
            final(self).pending_status == old(self).pending_status - 1,
            final(self).count_mode == old(self).count_mode,
            final(self).aborted == old(self).aborted,
            final(self).classified == old(self).classified,
            out_bytes@.len() + err_bytes@.len() > 0 ==> {
                &&& final(self).dirty == old(self).dirty + 1
                &&& final(self).flagged@ == old(self).flagged@.push((path@, kind))
            },
            out_bytes@.len() + err_bytes@.len() == 0 ==> {
                &&& final(self).dirty == old(self).dirty
                &&& final(self).flagged == old(self).flagged
            },
            r is Some <==> !old(self).count_mode && out_bytes@.len() + err_bytes@.len() > 0,
            r is Some ==> r->0@ == spec_header(path@, kind),
    {
        self.pending_status = self.pending_status - 1;
        let nonempty = out_bytes.len() > 0 || err_bytes.len() > 0;
        if nonempty {
            self.dirty = self.dirty + 1;
            proof {
                self.flagged@ = self.flagged@.push((path@, kind));
            }
            if !self.count_mode {
                return Some(make_header(path, kind));
            }
        }
        None
    }

    /// Raises the first-error-wins abort signal. Raising it again changes
    /// nothing; an aborted engine hands out no further work and never
    /// reaches the complete state.
    pub fn fatal(&mut self)
        ensures
            final(self).queue == old(self).queue,
            final(self).in_flight == old(self).in_flight,
            final(self).pending_status == old(self).pending_status,
            final(self).dirty == old(self).dirty,
            final(self).count_mode == old(self).count_mode,
            final(self).aborted,
            final(self).classified == old(self).classified,
            final(self).flagged == old(self).flagged,
            old(self).wf() ==> final(self).wf(),
    {
        self.aborted = true;
    }

    /// Observes the completion condition: queue empty, nothing in flight,
    /// nothing outstanding, no abort — all at a single point.
    pub fn is_complete(&self) -> (r: bool)
        ensures
            r == self.spec_complete(),
    {
        self.queue.len() == 0 && self.in_flight == 0 && self.pending_status == 0 && !self.aborted
    }

    /// The final tally for count mode: the number of dirty repositories,
    /// available exactly when the run completed without a fatal error and
    /// count mode is selected. Anything else gets nothing to print.
    pub fn final_count(&self) -> (r: Option<u64>)
        ensures
            r == self.spec_final_count(),
    {
        if self.count_mode && self.is_complete() {
            Some(self.dirty)
        } else {
            None
        }
    }
}

/// The printed tally always equals the number of flagged repositories: a
/// well-formed engine that reaches the complete state in count mode reports
/// exactly as many repositories as it flagged dirty, and in output mode the
/// flagged log is what the headers were produced from, one per entry.
pub proof fn lemma_count_equals_flagged(e: Engine)
    requires
        e.wf(),
    ensures
        e.spec_final_count() is Some ==> e.spec_final_count()->0 == e.flagged@.len(),
        e.spec_final_count() is Some ==> e.count_mode && e.spec_complete(),
{
}

/// A run that never completes — in particular one cut short by the abort
/// signal — prints no count: count mode only reports after full completion.
pub proof fn lemma_no_count_without_completion(e: Engine)
    requires
        e.aborted || !e.spec_complete(),
    ensures
        e.spec_final_count() is None,
{
}

} // verus!
