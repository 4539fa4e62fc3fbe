//! The archive job subsystem: a single fire-once background job with a
//! pollable status/progress state.
//!
//! The state machine over `archive_status` is
//! `Waiting --start()--> Running --(final runner step)--> Complete --reset()--> Waiting`;
//! `start` while `Running` or `Complete` is a no-op. Progress is the number of
//! runner steps completed so far, out of `ARCHIVE_TOTAL_STEPS`; the runner sets
//! it to `i + 1` after its `i`-th step, so a full run drives it from `0` to
//! `ARCHIVE_TOTAL_STEPS`.
//!
//! The caller that launches a run holds the state behind a lock and performs
//! the waits between steps; every mutation here is a short exclusive access.

use vstd::prelude::*;

verus! {

/// How many steps one archive run performs.
pub const ARCHIVE_TOTAL_STEPS: u32 = 10;

#[derive(Clone, Copy, PartialEq, Eq, Structural, Debug)]
pub enum ArchiveStatus {
    /// No run is active; `start` will launch one. The initial status.
    Waiting,
    /// A run was launched and has not finished.
    Running,
    /// The last launched run finished; `reset` re-arms `start`.
    Complete,
}

#[derive(Clone, Copy, PartialEq, Eq, Structural, Debug)]
pub struct ArchiverState {
    pub archive_status: ArchiveStatus,
    /// Completed runner steps, out of `ARCHIVE_TOTAL_STEPS`.
    pub archive_progress: u32,
}

/// The state `start` leaves behind: from `Waiting` it begins a run, from any
/// other status it changes nothing.
pub open spec fn start_transition(s: ArchiverState) -> ArchiverState {
    if s.archive_status == ArchiveStatus::Waiting {
        ArchiverState { archive_status: ArchiveStatus::Running, archive_progress: 0 }
    } else {
        s
    }
}

/// Whether `start` launches a runner from state `s`.
pub open spec fn start_launches(s: ArchiverState) -> bool {
    s.archive_status == ArchiveStatus::Waiting
}

/// The state `reset` leaves behind: status back to `Waiting`, progress kept.
pub open spec fn reset_transition(s: ArchiverState) -> ArchiverState {
    ArchiverState { archive_status: ArchiveStatus::Waiting, ..s }
}

/// The state after the runner's step number `i` (counted from 0): progress
/// becomes `i + 1`, status is untouched.
pub open spec fn step_transition(s: ArchiverState, i: int) -> ArchiverState {
    ArchiverState { archive_progress: (i + 1) as u32, ..s }
}

/// The state after the runner's closing write: status becomes `Complete`,
/// progress is untouched.
pub open spec fn finish_transition(s: ArchiverState) -> ArchiverState {
    ArchiverState { archive_status: ArchiveStatus::Complete, ..s }
}

/// The state after the first `k` steps of a run over `s0`, taken in order.
pub open spec fn run_trace(s0: ArchiverState, k: nat) -> ArchiverState
    decreases k,
{
    if k == 0 {
        s0
    } else {
        step_transition(run_trace(s0, (k - 1) as nat), k - 1)
    }
}

impl ArchiverState {
    /// Progress never exceeds the number of steps in a run.
    pub open spec fn wf(self) -> bool {
        self.archive_progress <= ARCHIVE_TOTAL_STEPS
    }

    /// The label shown for each status.
    pub open spec fn status_label_spec(self) -> Seq<char> {
        match self.archive_status {
            ArchiveStatus::Waiting => "Waiting"@,
            ArchiveStatus::Running => "Running"@,
            ArchiveStatus::Complete => "Complete"@,
        }
    }

    /// Progress as a percentage of a full run.
    pub open spec fn progress_percent_spec(self) -> int {
        self.archive_progress * 100 / ARCHIVE_TOTAL_STEPS as int
    }

    pub fn status(&self) -> (r: ArchiveStatus)
        ensures
            r == self.archive_status,
    {
        self.archive_status
    }

    /// The status label for display.
    pub fn status_label(&self) -> (r: String)
        ensures
            r@ == self.status_label_spec(),
    {
        match self.archive_status {
            ArchiveStatus::Waiting => "Waiting".to_owned(),
            ArchiveStatus::Running => "Running".to_owned(),
            ArchiveStatus::Complete => "Complete".to_owned(),
        }
    }

    /// Progress of the current run, as a percentage from 0 to 100.
    pub fn progress(&self) -> (r: u32)
        requires
            self.wf(),
        ensures
            r == self.progress_percent_spec(),
            r <= 100,
    {
        self.archive_progress * 100 / ARCHIVE_TOTAL_STEPS
    }

    /// The file a finished run is served from.
    pub fn archive_file(&self) -> (r: &'static str)
        ensures
            r@ == "db/contacts.db"@,
    {
        "db/contacts.db"
    }

    /// An immutable copy of the state at one instant, safe to hand to a
    /// renderer without holding the lock.
    pub fn snapshot(&self) -> (r: ArchiverState)
        ensures
            r == *self,
    {
        *self
    }

    /// Begin a run if none is active. Returns whether the caller must launch
    /// a runner: exactly when the status was `Waiting`.
    pub fn start(&mut self) -> (launched: bool)
        ensures
            *final(self) == start_transition(*old(self)),
            launched == start_launches(*old(self)),
            old(self).wf() ==> final(self).wf(),
    {
        if self.archive_status == ArchiveStatus::Waiting {
            self.archive_status = ArchiveStatus::Running;
            self.archive_progress = 0;
            true
        } else {
            false
        }
    }

    /// Dismiss the current run: status back to `Waiting`, whatever it was.
    pub fn reset(&mut self)
        ensures
            *final(self) == reset_transition(*old(self)),
            old(self).wf() ==> final(self).wf(),
    {
        self.archive_status = ArchiveStatus::Waiting;
    }

    /// The runner's write after its step number `i`: progress becomes `i + 1`.
    /// Status is left alone, even if a concurrent `reset` changed it.
    pub fn run_step(&mut self, i: u32)
        requires
            i < ARCHIVE_TOTAL_STEPS,
        ensures
            *final(self) == step_transition(*old(self), i as int),
            final(self).wf(),
    {
        self.archive_progress = i + 1;
    }

    /// The runner's closing write: status becomes `Complete`.
    pub fn run_finish(&mut self)
        ensures
            *final(self) == finish_transition(*old(self)),
            old(self).wf() ==> final(self).wf(),
    {
        self.archive_status = ArchiveStatus::Complete;
    }

    /// One whole run taken on exclusively held state: every step in order,
    /// then the closing write. The waits between steps belong to the caller.
    pub fn run_all_steps(&mut self)
        ensures
            *final(self) == finish_transition(run_trace(*old(self), ARCHIVE_TOTAL_STEPS as nat)),
            final(self).archive_status == ArchiveStatus::Complete,
            final(self).archive_progress == ARCHIVE_TOTAL_STEPS,
            final(self).wf(),
    {
        let mut i: u32 = 0;
        while i < ARCHIVE_TOTAL_STEPS
            invariant
                i <= ARCHIVE_TOTAL_STEPS,
                *self == run_trace(*old(self), i as nat),
                i > 0 ==> self.archive_progress == i,
            decreases ARCHIVE_TOTAL_STEPS - i,
        {
            self.run_step(i);
            i = i + 1;
        }
        self.run_finish();
    }
}

/// After `k` steps of a run the status is untouched, and progress is exactly
/// `k` once any step ran.
proof fn lemma_run_trace(s0: ArchiverState, k: nat)
    requires
        k <= ARCHIVE_TOTAL_STEPS,
    ensures
        run_trace(s0, k).archive_status == s0.archive_status,
        run_trace(s0, k).archive_progress == if k == 0 {
            s0.archive_progress as int
        } else {
            k as int
        },
    decreases k,
{
    if k > 0 {
        lemma_run_trace(s0, (k - 1) as nat);
    }
}

/// From `Waiting`, `start` moves the status to `Running`, sets progress back
/// to nothing, and launches a runner.
pub proof fn lemma_start_from_waiting(s: ArchiverState)
    requires
        s.archive_status == ArchiveStatus::Waiting,
    ensures
        start_transition(s).archive_status == ArchiveStatus::Running,
        start_transition(s).archive_progress == 0,
        start_launches(s),
{
}

/// While a run takes its steps in order, the progress a snapshot shows never
/// decreases: over the run's trace, later means at least as far.
pub proof fn lemma_run_progress_monotonic(s0: ArchiverState, j: nat, k: nat)
    requires
        s0.archive_progress == 0,
        j <= k <= ARCHIVE_TOTAL_STEPS,
    ensures
        run_trace(s0, j).archive_progress <= run_trace(s0, k).archive_progress,
        run_trace(s0, j).archive_status == s0.archive_status,
{
    lemma_run_trace(s0, j);
    lemma_run_trace(s0, k);
}

/// After the runner's final step and its closing write, the state is
/// `Complete` with full progress. It stays that way until `reset`: `start`
/// leaves it alone ([`lemma_start_noop`]) and nothing else writes.
pub proof fn lemma_run_completes(s0: ArchiverState)
    ensures
        finish_transition(
            run_trace(s0, ARCHIVE_TOTAL_STEPS as nat),
        ).archive_status == ArchiveStatus::Complete,
        finish_transition(
            run_trace(s0, ARCHIVE_TOTAL_STEPS as nat),
        ).archive_progress == ARCHIVE_TOTAL_STEPS,
        finish_transition(run_trace(s0, ARCHIVE_TOTAL_STEPS as nat)).progress_percent_spec()
            == 100,
{
    lemma_run_trace(s0, ARCHIVE_TOTAL_STEPS as nat);
}

/// `start` while `Running` or `Complete` is a no-op: the state is unchanged
/// and no runner is launched.
pub proof fn lemma_start_noop(s: ArchiverState)
    requires
        s.archive_status != ArchiveStatus::Waiting,
    ensures
        start_transition(s) == s,
        !start_launches(s),
{
}

/// `reset` moves any state back to `Waiting`, and a `start` that follows is
/// effective: it launches a fresh run.
pub proof fn lemma_reset_rearms(s: ArchiverState)
    ensures
        reset_transition(s).archive_status == ArchiveStatus::Waiting,
        start_launches(reset_transition(s)),
        start_transition(reset_transition(s)).archive_status == ArchiveStatus::Running,
        start_transition(reset_transition(s)).archive_progress == 0,
{
}

impl Default for ArchiverState {
    /// The initial state: `Waiting`, no progress.
    fn default() -> (r: Self)
        ensures
            r.archive_status == ArchiveStatus::Waiting,
            r.archive_progress == 0,
            r.wf(),
    {
        ArchiverState { archive_status: ArchiveStatus::Waiting, archive_progress: 0 }
    }
}

} // verus!
