//! Task lifecycle state and the cell that publishes it.

use vstd::prelude::*;

verus! {

/// Abstract value of a [`TaskStatus`].
pub enum StatusView {
    Stopped,
    Running { pid: u32, start_time: u64 },
    Failed { reason: Seq<char> },
}

/// Lifecycle state of one task.
///
/// `start_time` is a moment in milliseconds on the host's clock, recorded
/// when the child was spawned; the render path subtracts it from the
/// current time to show an uptime.
#[derive(Debug, Clone, PartialEq)]
pub enum TaskStatus {
    Stopped,
    Running { pid: u32, start_time: u64 },
    Failed(String),
}

impl View for TaskStatus {
    type V = StatusView;

    open spec fn view(&self) -> StatusView {
        match self {
            TaskStatus::Stopped => StatusView::Stopped,
            TaskStatus::Running { pid, start_time } => StatusView::Running {
                pid: *pid,
                start_time: *start_time,
            },
            TaskStatus::Failed(reason) => StatusView::Failed { reason: reason@ },
        }
    }
}

/// The transitions a task's status may take, within one run and between
/// runs: `Stopped` to `Running` (spawn succeeded) or to `Failed` (spawn
/// refused); `Running` to `Stopped` (clean or requested stop) or to
/// `Failed` (bad exit); `Failed` back to `Stopped` (reset before a
/// restart). In particular a status never moves from `Failed` straight to
/// `Running`, and never from `Running` to `Running`.
pub open spec fn status_step_ok(from: StatusView, to: StatusView) -> bool {
    match from {
        StatusView::Stopped => !(to is Stopped),
        StatusView::Running { .. } => !(to is Running),
        StatusView::Failed { .. } => to is Stopped,
    }
}

/// A task's current lifecycle state, shared (behind a host-side lock)
/// between the one runner that owns the task's execution, which writes,
/// and the render path, which reads. Every mutating method takes a step
/// that [`status_step_ok`] allows.
pub struct StatusCell {
    status: TaskStatus,
}

impl View for StatusCell {
    type V = StatusView;

    closed spec fn view(&self) -> StatusView {
        self.status@
    }
}

impl StatusCell {
    pub fn new() -> (r: StatusCell)
        ensures
            r@ == StatusView::Stopped,
    {
        StatusCell { status: TaskStatus::Stopped }
    }

    /// A non-blocking snapshot for the render path.
    pub fn current(&self) -> (r: &TaskStatus)
        ensures
            r@ == self@,
    {
        &self.status
    }

    pub fn is_running(&self) -> (r: bool)
        ensures
            r == (self@ is Running),
    {
        match self.status {
            TaskStatus::Running { .. } => true,
            _ => false,
        }
    }

    /// The spawn succeeded: the task enters `Running`.
    pub fn begin_running(&mut self, pid: u32, start_time: u64)
        requires
            old(self)@ is Stopped,
        ensures
            final(self)@ == (StatusView::Running { pid, start_time }),
            status_step_ok(old(self)@, final(self)@),
    {
        self.status = TaskStatus::Running { pid, start_time };
    }

    /// The spawn was refused, or the child exited badly: the task enters
    /// `Failed` with the given reason.
    pub fn fail(&mut self, reason: String)
        requires
            !(old(self)@ is Failed),
        ensures
            final(self)@ == (StatusView::Failed { reason: reason@ }),
            status_step_ok(old(self)@, final(self)@),
    {
        self.status = TaskStatus::Failed(reason);
    }

    /// The run ended cleanly, or by request: the task returns to `Stopped`.
    pub fn finish_stopped(&mut self)
        requires
            old(self)@ is Running,
        ensures
            final(self)@ == StatusView::Stopped,
            status_step_ok(old(self)@, final(self)@),
    {
        self.status = TaskStatus::Stopped;
    }

    /// A failed task is cleared back to `Stopped` before a restart, so
    /// that a restart never moves `Failed` straight to `Running`.
    pub fn reset(&mut self)
        requires
            old(self)@ is Failed,
        ensures
            final(self)@ == StatusView::Stopped,
            status_step_ok(old(self)@, final(self)@),
    {
        self.status = TaskStatus::Stopped;
    }
}

/// The status machine is monotonic within one run: no allowed step enters
/// `Running` from `Failed`, re-enters `Running` from `Running`, or stays
/// in `Stopped`.
pub proof fn lemma_status_transitions(a: StatusView, b: StatusView)
    ensures
        a is Failed && b is Running ==> !status_step_ok(a, b),
        a is Running && b is Running ==> !status_step_ok(a, b),
        a is Stopped && b is Stopped ==> !status_step_ok(a, b),
{
}

} // verus!
