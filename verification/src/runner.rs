//! Decisions of the unit that owns one child process: what a control
//! message does while the child runs, and what final status an exit
//! resolves to.
//!
//! The host performs the process work (spawn, pipe writes, kill, wait)
//! and feeds the outcomes back in as plain values.

use vstd::prelude::*;

verus! {

use vstd::string::StringExecFns;
use crate::status::{StatusCell, StatusView, status_step_ok};
use crate::text::dec_int;

/// Bound of the control mailbox the host creates per running task.
/// Sends into it are best-effort: when it is full, a message is dropped
/// rather than blocking the input path.
pub const CONTROL_CHANNEL_CAPACITY: usize = 32;

/// Abstract value of a [`TaskControlMsg`].
pub enum MsgView {
    Stdin(Seq<char>),
    Stop,
}

/// One message of the bounded mailbox from the supervisor into a running
/// task: text for the child's stdin, or a stop request.
#[derive(Debug, Clone, PartialEq)]
pub enum TaskControlMsg {
    Stdin(String),
    Stop,
}

impl View for TaskControlMsg {
    type V = MsgView;

    open spec fn view(&self) -> MsgView {
        match self {
            TaskControlMsg::Stdin(text) => MsgView::Stdin(text@),
            TaskControlMsg::Stop => MsgView::Stop,
        }
    }
}

impl DeepView for TaskControlMsg {
    type V = MsgView;

    open spec fn deep_view(&self) -> MsgView {
        self.view()
    }
}

/// Abstract value of a [`ControlAction`].
pub enum ActionView {
    WriteStdin(Seq<char>),
    Kill,
}

/// What the host must do to the child after a control message: write the
/// given bytes to its stdin (best-effort), or terminate it forcibly.
#[derive(Debug, Clone, PartialEq)]
pub enum ControlAction {
    WriteStdin(String),
    Kill,
}

impl View for ControlAction {
    type V = ActionView;

    open spec fn view(&self) -> ActionView {
        match self {
            ControlAction::WriteStdin(text) => ActionView::WriteStdin(text@),
            ControlAction::Kill => ActionView::Kill,
        }
    }
}

/// Abstract value of an [`ExitOutcome`].
pub enum ExitView {
    Exited { success: bool, code: Option<i32> },
    WaitFailed(Seq<char>),
}

/// How waiting on the child ended: the child exited (with a success flag
/// and, unless a signal ended it, an exit code), or the wait itself
/// failed with an error.
#[derive(Debug, Clone, PartialEq)]
pub enum ExitOutcome {
    Exited { success: bool, code: Option<i32> },
    WaitFailed(String),
}

impl View for ExitOutcome {
    type V = ExitView;

    open spec fn view(&self) -> ExitView {
        match self {
            ExitOutcome::Exited { success, code } => ExitView::Exited {
                success: *success,
                code: *code,
            },
            ExitOutcome::WaitFailed(error) => ExitView::WaitFailed(error@),
        }
    }
}

/// What is written to the child's stdin for one submitted line: the text
/// with a line terminator.
pub fn stdin_payload(text: &str) -> (r: String)
    ensures
        r@ == text@.push('\n'),
{
    let r = text.to_owned().concat("\n");
    proof {
        reveal_strlit("\n");
        assert(r@ =~= text@.push('\n'));
    }
    r
}

/// One step of the supervising loop on a control message. Stdin text
/// becomes a terminated line for the child's stdin and leaves the
/// manual-stop flag alone; a stop request sets the flag and asks for a
/// forcible kill (the loop then keeps waiting so the child is reaped).
pub fn on_control(manual_stop: bool, msg: TaskControlMsg) -> (r: (bool, ControlAction))
    ensures
        match msg@ {
            MsgView::Stdin(text) => {
                &&& r.0 == manual_stop
                &&& r.1@ == ActionView::WriteStdin(text.push('\n'))
            },
            MsgView::Stop => {
                &&& r.0 == true
                &&& r.1@ == ActionView::Kill
            },
        },
{
    match msg {
        TaskControlMsg::Stdin(text) => {
            (manual_stop, ControlAction::WriteStdin(stdin_payload(text.as_str())))
        },
        TaskControlMsg::Stop => (true, ControlAction::Kill),
    }
}

/// The reason recorded for a run that ended badly: the exit code, or a
/// note that a signal ended the child.
pub open spec fn exit_reason(code: Option<i32>) -> Seq<char> {
    match code {
        Some(c) => "Exit Code: "@ + dec_int(c as int),
        None => "Exit Code: "@ + "Killed by signal"@,
    }
}

/// The terminal status of one run: `Stopped` when the stop was requested
/// or the child exited cleanly, `Failed` with the exit reason otherwise;
/// a failure of the wait itself is recorded as `Failed` with its error.
pub open spec fn resolved_status(manual_stop: bool, outcome: ExitView) -> StatusView {
    match outcome {
        ExitView::Exited { success, code } => {
            if manual_stop || success {
                StatusView::Stopped
            } else {
                StatusView::Failed { reason: exit_reason(code) }
            }
        },
        ExitView::WaitFailed(error) => StatusView::Failed { reason: error },
    }
}

/// Resolve the status cell of a running task once its wait has returned.
pub fn resolve_exit(cell: &mut StatusCell, manual_stop: bool, outcome: ExitOutcome)
    requires
        old(cell)@ is Running,
    ensures
        final(cell)@ == resolved_status(manual_stop, outcome@),
        status_step_ok(old(cell)@, final(cell)@),
{
    match outcome {
        ExitOutcome::Exited { success, code } => {
            if manual_stop || success {
                cell.finish_stopped();
            } else {
                let mut reason = String::from_str("Exit Code: ");
                match code {
                    Some(c) => {
                        let digits = crate::text::i32_to_string(c);
                        reason.append(digits.as_str());
                    },
                    None => {
                        reason.append("Killed by signal");
                    },
                }
                cell.fail(reason);
            }
        },
        ExitOutcome::WaitFailed(error) => {
            cell.fail(error);
        },
    }
}

/// Tag one line read from the child's stderr before it joins the log.
pub fn tag_stderr_line(line: &str) -> (r: String)
    ensures
        r@ == "[ERR] "@ + line@,
{
    let mut r = String::from_str("[ERR] ");
    r.append(line);
    r
}

} // verus!
