//! The task-control panel: the per-task runtime aggregate, the decisions
//! behind start/stop and restart, and the list/log view state machine
//! that keyboard input drives.

use vstd::prelude::*;

verus! {

use vstd::string::StringExecFns;
use crate::log_buffer::{LogBuffer, append_model};
use crate::runner::{MsgView, TaskControlMsg, tag_stderr_line};
use crate::status::{StatusCell, StatusView, TaskStatus};
use crate::task::{DescView, DEFAULT_LOG_LIMIT, RestartPolicy, TaskDescriptor};

/// The log capacity a descriptor asks for.
pub open spec fn effective_log_limit_spec(d: DescView) -> nat {
    match d.log_limit {
        Some(l) => l as nat,
        None => DEFAULT_LOG_LIMIT as nat,
    }
}

/// Abstract value of a [`TaskRuntime`].
pub struct RuntimeView {
    pub desc: DescView,
    pub status: StatusView,
    pub logs: Seq<Seq<char>>,
    pub control_attached: bool,
}

/// Everything the supervisor holds for one task: the immutable
/// declaration, the status cell and log buffer its runner writes, and
/// whether a control mailbox to a runner currently exists.
pub struct TaskRuntime {
    pub desc: TaskDescriptor,
    pub status: StatusCell,
    pub logs: LogBuffer,
    pub control_attached: bool,
}

impl View for TaskRuntime {
    type V = RuntimeView;

    open spec fn view(&self) -> RuntimeView {
        RuntimeView {
            desc: self.desc@,
            status: self.status@,
            logs: self.logs@,
            control_attached: self.control_attached,
        }
    }
}

impl TaskRuntime {
    /// The log buffer stays within the capacity the declaration asks for.
    pub open spec fn wf(&self) -> bool {
        &&& self.logs.wf()
        &&& self.logs.cap() == effective_log_limit_spec(self.desc@)
    }

    /// A fresh runtime: stopped, with an empty log of the declared
    /// capacity, and no control mailbox.
    pub fn new(desc: TaskDescriptor) -> (r: TaskRuntime)
        ensures
            r@.desc == desc@,
            r@.status == StatusView::Stopped,
            r@.logs == Seq::<Seq<char>>::empty(),
            r@.control_attached == false,
            r.wf(),
    {
        let limit = desc.effective_log_limit();
        TaskRuntime {
            desc,
            status: StatusCell::new(),
            logs: LogBuffer::new(limit),
            control_attached: false,
        }
    }

    /// Record one line of child output, tagging lines read from stderr.
    pub fn append_output(&mut self, line: String, from_stderr: bool)
        requires
            old(self).wf(),
        ensures
            final(self)@.logs == append_model(
                old(self)@.logs,
                old(self).logs.cap(),
                if from_stderr {
                    "[ERR] "@ + line@
                } else {
                    line@
                },
            ),
            final(self)@.desc == old(self)@.desc,
            final(self)@.status == old(self)@.status,
            final(self)@.control_attached == old(self)@.control_attached,
            final(self).wf(),
    {
        if from_stderr {
            self.logs.append(tag_stderr_line(line.as_str()));
        } else {
            self.logs.append(line);
        }
    }

    /// Echo one submitted stdin line into the log, with the same bound as
    /// any other append.
    pub fn echo_input(&mut self, text: &str)
        requires
            old(self).wf(),
        ensures
            final(self)@.logs == append_model(
                old(self)@.logs,
                old(self).logs.cap(),
                ">>> "@ + text@,
            ),
            final(self)@.desc == old(self)@.desc,
            final(self)@.status == old(self)@.status,
            final(self)@.control_attached == old(self)@.control_attached,
            final(self).wf(),
    {
        let mut line = String::from_str(">>> ");
        line.append(text);
        self.logs.append(line);
    }

    /// The stop request for the task, if one is to be sent: only a
    /// running task with a live control mailbox gets one.
    pub fn stop_message(&self) -> (r: Option<TaskControlMsg>)
        ensures
            r.deep_view() == stop_decision(self@),
    {
        if self.status.is_running() && self.control_attached {
            Some(TaskControlMsg::Stop)
        } else {
            None
        }
    }

    /// What the start/stop toggle does to the task in its present state.
    pub fn toggle_action(&self) -> (r: ToggleAction)
        ensures
            r == toggle_decision(self@.status),
    {
        if self.status.is_running() {
            ToggleAction::SendStop
        } else {
            ToggleAction::Spawn
        }
    }
}

/// The message a stop request produces: `Stop` into the mailbox of a
/// running task that still has one, nothing otherwise.
pub open spec fn stop_decision(rt: RuntimeView) -> Option<MsgView> {
    if rt.status is Running && rt.control_attached {
        Some(MsgView::Stop)
    } else {
        None
    }
}

/// Stop is idempotent: on a task that is not running it sends no control
/// message, so no status changes and nothing panics.
pub proof fn lemma_stop_idempotent(rt: RuntimeView)
    ensures
        !(rt.status is Running) ==> stop_decision(rt) is None,
{
}

/// What the start/stop toggle means for a task in the given state.
#[derive(Debug, Clone, Copy, PartialEq, Eq, Structural)]
pub enum ToggleAction {
    /// The task runs: ask its runner to stop (the transition itself
    /// happens asynchronously when the runner resolves).
    SendStop,
    /// The task does not run: spawn a fresh runner for it.
    Spawn,
}

pub open spec fn toggle_decision(status: StatusView) -> ToggleAction {
    if status is Running {
        ToggleAction::SendStop
    } else {
        ToggleAction::Spawn
    }
}

/// What to do after a run resolves, by the task's restart policy.
#[derive(Debug, Clone, Copy, PartialEq, Eq, Structural)]
pub enum RestartAction {
    /// Spawn the task again (the host inserts a cool-down first).
    Respawn,
    /// Surface a warning through the host's event bus.
    Notify,
    /// Do nothing.
    Ignore,
}

/// Only a `Failed` resolution triggers the policy; an absent policy means
/// `Never`.
pub open spec fn restart_decision(policy: Option<RestartPolicy>, status: StatusView) -> RestartAction {
    if status is Failed {
        match policy {
            Some(RestartPolicy::Always) => RestartAction::Respawn,
            Some(RestartPolicy::Warn) => RestartAction::Notify,
            _ => RestartAction::Ignore,
        }
    } else {
        RestartAction::Ignore
    }
}

pub fn restart_action(policy: Option<RestartPolicy>, status: &TaskStatus) -> (r: RestartAction)
    ensures
        r == restart_decision(policy, status@),
{
    match status {
        TaskStatus::Failed(_) => match policy {
            Some(RestartPolicy::Always) => RestartAction::Respawn,
            Some(RestartPolicy::Warn) => RestartAction::Notify,
            _ => RestartAction::Ignore,
        },
        _ => RestartAction::Ignore,
    }
}

/// The two screens of the panel.
#[derive(Debug, Clone, Copy, PartialEq, Eq, Structural)]
pub enum ViewMode {
    /// Task list above a detail pane.
    List,
    /// Full-screen log of the selected task, with an input line.
    Log,
}

/// The keys the panel reacts to, as the host maps them from its input
/// backend.
#[derive(Debug, Clone, Copy, PartialEq, Eq, Structural)]
pub enum Key {
    Up,
    Down,
    Enter,
    Esc,
    Backspace,
    Char(char),
    Other,
}

/// Abstract value of a [`UiAction`].
pub enum UiActionView {
    Idle,
    Toggle(usize),
    SendStdin { index: usize, text: Seq<char> },
}

/// What the host must do after a key was handled: nothing, toggle a task,
/// or send submitted text to a task's stdin (echoing it into that task's
/// log).
#[derive(Debug, Clone, PartialEq)]
pub enum UiAction {
    Idle,
    Toggle(usize),
    SendStdin { index: usize, text: String },
}

impl View for UiAction {
    type V = UiActionView;

    open spec fn view(&self) -> UiActionView {
        match self {
            UiAction::Idle => UiActionView::Idle,
            UiAction::Toggle(i) => UiActionView::Toggle(*i),
            UiAction::SendStdin { index, text } => UiActionView::SendStdin {
                index: *index,
                text: text@,
            },
        }
    }
}

/// What one key press produced: whether the panel consumed the key, and
/// the action the host must perform.
#[derive(Debug, Clone, PartialEq)]
pub struct KeyOutcome {
    pub consumed: bool,
    pub action: UiAction,
}

/// Abstract value of a [`TaskControlComponent`].
pub struct UiView {
    pub task_count: usize,
    pub selected: usize,
    pub mode: ViewMode,
    pub scroll: u16,
    pub input: Seq<char>,
}

/// The selection stays inside the task list (and at zero when the list is
/// empty).
pub open spec fn ui_wf(s: UiView) -> bool {
    if s.task_count == 0 {
        s.selected == 0
    } else {
        s.selected < s.task_count
    }
}

/// The next selection when moving down, wrapping past the end.
pub open spec fn wrap_next(selected: usize, count: usize) -> usize {
    if count == 0 {
        0
    } else {
        (((selected as int) + 1) % (count as int)) as usize
    }
}

/// The next selection when moving up, wrapping past the start.
pub open spec fn wrap_prev(selected: usize, count: usize) -> usize {
    if count == 0 {
        0
    } else if selected == 0 {
        (count - 1) as usize
    } else {
        (selected - 1) as usize
    }
}

/// One key in List mode: vim-style or arrow navigation with wrap-around,
/// `x` toggles the selected task, `Enter` opens the log view; anything
/// else is left to the host.
pub open spec fn list_step(s: UiView, key: Key) -> (UiView, UiActionView, bool) {
    match key {
        Key::Down => (UiView { selected: wrap_next(s.selected, s.task_count), ..s }, UiActionView::Idle, true),
        Key::Up => (UiView { selected: wrap_prev(s.selected, s.task_count), ..s }, UiActionView::Idle, true),
        Key::Enter => (UiView { mode: ViewMode::Log, ..s }, UiActionView::Idle, true),
        Key::Char(c) => {
            if c == 'j' {
                (UiView { selected: wrap_next(s.selected, s.task_count), ..s }, UiActionView::Idle, true)
            } else if c == 'k' {
                (UiView { selected: wrap_prev(s.selected, s.task_count), ..s }, UiActionView::Idle, true)
            } else if c == 'x' {
                if s.task_count == 0 {
                    (s, UiActionView::Idle, true)
                } else {
                    (s, UiActionView::Toggle(s.selected), true)
                }
            } else {
                (s, UiActionView::Idle, false)
            }
        },
        _ => (s, UiActionView::Idle, false),
    }
}

/// One key in Log mode: `Esc` returns to the list and clears the input
/// buffer, characters edit the input buffer, `Enter` submits it to the
/// selected task's stdin, `Up`/`Down` scroll the log.
pub open spec fn log_step(s: UiView, key: Key) -> (UiView, UiActionView, bool) {
    match key {
        Key::Esc => (
            UiView { mode: ViewMode::List, input: Seq::empty(), ..s },
            UiActionView::Idle,
            true,
        ),
        Key::Enter => {
            if s.input.len() > 0 {
                (
                    UiView { input: Seq::empty(), ..s },
                    UiActionView::SendStdin { index: s.selected, text: s.input },
                    true,
                )
            } else {
                (s, UiActionView::Idle, true)
            }
        },
        Key::Backspace => (
            UiView {
                input: if s.input.len() > 0 {
                    s.input.drop_last()
                } else {
                    s.input
                },
                ..s
            },
            UiActionView::Idle,
            true,
        ),
        Key::Char(c) => (UiView { input: s.input.push(c), ..s }, UiActionView::Idle, true),
        Key::Up => (
            UiView { scroll: if s.scroll > 0 { (s.scroll - 1) as u16 } else { 0 }, ..s },
            UiActionView::Idle,
            true,
        ),
        Key::Down => (
            UiView {
                scroll: if s.scroll < u16::MAX {
                    (s.scroll + 1) as u16
                } else {
                    u16::MAX
                },
                ..s
            },
            UiActionView::Idle,
            true,
        ),
        Key::Other => (s, UiActionView::Idle, false),
    }
}

/// One key, dispatched by the current screen.
pub open spec fn ui_step(s: UiView, key: Key) -> (UiView, UiActionView, bool) {
    match s.mode {
        ViewMode::List => list_step(s, key),
        ViewMode::Log => log_step(s, key),
    }
}

/// The panel's own state: which task is selected, which screen shows,
/// how far the log view is scrolled, and the stdin line being composed.
/// The statuses and logs themselves live in the per-task [`TaskRuntime`]s.
pub struct TaskControlComponent {
    pub task_count: usize,
    pub selected_idx: usize,
    pub view_mode: ViewMode,
    pub log_scroll: u16,
    pub input: Vec<char>,
}

impl View for TaskControlComponent {
    type V = UiView;

    open spec fn view(&self) -> UiView {
        UiView {
            task_count: self.task_count,
            selected: self.selected_idx,
            mode: self.view_mode,
            scroll: self.log_scroll,
            input: self.input@,
        }
    }
}

impl TaskControlComponent {
    pub fn new(task_count: usize) -> (r: TaskControlComponent)
        ensures
            r@ == (UiView {
                task_count,
                selected: 0,
                mode: ViewMode::List,
                scroll: 0,
                input: Seq::empty(),
            }),
            ui_wf(r@),
    {
        TaskControlComponent {
            task_count,
            selected_idx: 0,
            view_mode: ViewMode::List,
            log_scroll: 0,
            input: Vec::new(),
        }
    }

    pub fn handle_list_keys(&mut self, key: Key) -> (r: KeyOutcome)
        requires
            ui_wf(old(self)@),
        ensures
            final(self)@ == list_step(old(self)@, key).0,
            r.action@ == list_step(old(self)@, key).1,
            r.consumed == list_step(old(self)@, key).2,
            ui_wf(final(self)@),
    {
        match key {
            Key::Down => {
                self.select_next();
                KeyOutcome { consumed: true, action: UiAction::Idle }
            },
            Key::Up => {
                self.select_prev();
                KeyOutcome { consumed: true, action: UiAction::Idle }
            },
            Key::Enter => {
                self.view_mode = ViewMode::Log;
                KeyOutcome { consumed: true, action: UiAction::Idle }
            },
            Key::Char(c) => {
                if c == 'j' {
                    self.select_next();
                    KeyOutcome { consumed: true, action: UiAction::Idle }
                } else if c == 'k' {
                    self.select_prev();
                    KeyOutcome { consumed: true, action: UiAction::Idle }
                } else if c == 'x' {
                    if self.task_count == 0 {
                        KeyOutcome { consumed: true, action: UiAction::Idle }
                    } else {
                        KeyOutcome {
                            consumed: true,
                            action: UiAction::Toggle(self.selected_idx),
                        }
                    }
                } else {
                    KeyOutcome { consumed: false, action: UiAction::Idle }
                }
            },
            _ => KeyOutcome { consumed: false, action: UiAction::Idle },
        }
    }

    pub fn handle_log_keys(&mut self, key: Key) -> (r: KeyOutcome)
        requires
            ui_wf(old(self)@),
        ensures
            final(self)@ == log_step(old(self)@, key).0,
            r.action@ == log_step(old(self)@, key).1,
            r.consumed == log_step(old(self)@, key).2,
            ui_wf(final(self)@),
    {
        match key {
            Key::Esc => {
                self.view_mode = ViewMode::List;
                self.input.clear();
                KeyOutcome { consumed: true, action: UiAction::Idle }
            },
            Key::Enter => {
                if self.input.len() > 0 {
                    let text = chars_to_string(&self.input);
                    self.input.clear();
                    KeyOutcome {
                        consumed: true,
                        action: UiAction::SendStdin { index: self.selected_idx, text },
                    }
                } else {
                    KeyOutcome { consumed: true, action: UiAction::Idle }
                }
            },
            Key::Backspace => {
                let _ = self.input.pop();
                KeyOutcome { consumed: true, action: UiAction::Idle }
            },
            Key::Char(c) => {
                self.input.push(c);
                KeyOutcome { consumed: true, action: UiAction::Idle }
            },
            Key::Up => {
                if self.log_scroll > 0 {
                    self.log_scroll = self.log_scroll - 1;
                }
                KeyOutcome { consumed: true, action: UiAction::Idle }
            },
            Key::Down => {
                if self.log_scroll < u16::MAX {
                    self.log_scroll = self.log_scroll + 1;
                }
                KeyOutcome { consumed: true, action: UiAction::Idle }
            },
            Key::Other => KeyOutcome { consumed: false, action: UiAction::Idle },
        }
    }

    /// One key press, dispatched by the current screen.
    pub fn handle_key(&mut self, key: Key) -> (r: KeyOutcome)
        requires
            ui_wf(old(self)@),
        ensures
            final(self)@ == ui_step(old(self)@, key).0,
            r.action@ == ui_step(old(self)@, key).1,
            r.consumed == ui_step(old(self)@, key).2,
            ui_wf(final(self)@),
    {
        match self.view_mode {
            ViewMode::List => self.handle_list_keys(key),
            ViewMode::Log => self.handle_log_keys(key),
        }
    }

    fn select_next(&mut self)
        requires
            ui_wf(old(self)@),
        ensures
            final(self)@ == (UiView {
                selected: wrap_next(old(self)@.selected, old(self)@.task_count),
                ..old(self)@
            }),
            ui_wf(final(self)@),
    {
        if self.task_count == 0 {
            self.selected_idx = 0;
        } else {
            self.selected_idx = (self.selected_idx + 1) % self.task_count;
        }
    }

    fn select_prev(&mut self)
        requires
            ui_wf(old(self)@),
        ensures
            final(self)@ == (UiView {
                selected: wrap_prev(old(self)@.selected, old(self)@.task_count),
                ..old(self)@
            }),
            ui_wf(final(self)@),
    {
        if self.task_count == 0 {
            self.selected_idx = 0;
        } else if self.selected_idx == 0 {
            self.selected_idx = self.task_count - 1;
        } else {
            self.selected_idx = self.selected_idx - 1;
        }
    }
}

/// Relies on `String::push`: appends one character to the end of the
/// string.
#[verifier::external_body]
fn push_char(s: &mut String, c: char)
    ensures
        final(s)@ == old(s)@.push(c),
{
    s.push(c)
}

/// The composed input line as a string.
pub fn chars_to_string(chars: &Vec<char>) -> (r: String)
    ensures
        r@ == chars@,
{
    let mut r = String::new();
    let mut i: usize = 0;
    while i < chars.len()
        invariant
            i <= chars.len(),
            r@ == chars@.take(i as int),
        decreases chars.len() - i,
    {
        push_char(&mut r, chars[i]);
        proof {
            assert(r@ =~= chars@.take(i + 1));
        }
        i = i + 1;
    }
    proof {
        assert(chars@.take(chars.len() as int) =~= chars@);
    }
    r
}

/// The indices of the tasks that start at launch, in declaration order.
pub open spec fn autostart_indices(descs: Seq<DescView>) -> Seq<usize>
    decreases descs.len(),
{
    if descs.len() == 0 {
        Seq::empty()
    } else {
        let prefix = autostart_indices(descs.drop_last());
        if descs.last().autostart {
            prefix.push((descs.len() - 1) as usize)
        } else {
            prefix
        }
    }
}

/// Which tasks to start at construction: every descriptor that asks for
/// autostart, in order.
pub fn auto_start_tasks(descs: &Vec<TaskDescriptor>) -> (r: Vec<usize>)
    ensures
        r@ == autostart_indices(descs.deep_view()),
{
    let ghost all = descs.deep_view();
    let mut r: Vec<usize> = Vec::new();
    let mut i: usize = 0;
    while i < descs.len()
        invariant
            i <= descs.len(),
            all == descs.deep_view(),
            r@ == autostart_indices(all.take(i as int)),
        decreases descs.len() - i,
    {
        proof {
            assert(all.take(i + 1).drop_last() =~= all.take(i as int));
            assert(all.take(i + 1).last() == all[i as int]);
        }
        if descs[i].autostart {
            r.push(i);
        }
        i = i + 1;
    }
    proof {
        assert(all.take(descs.len() as int) =~= all);
    }
    r
}

} // verus!
