//! Events published on the host's shared bus, and the helpers that build
//! them. The bus itself (a broadcast channel) lives with the host; the
//! crate only constructs the values that travel on it.

use vstd::prelude::*;

verus! {

/// Severity of a status notification shown in the footer.
#[derive(Debug, Clone, Copy, PartialEq, Eq, Structural)]
pub enum StatusLevel {
    Info,
    Success,
    Warning,
    Error,
}

/// Progress attached to a status notification.
#[derive(Debug, Clone, Copy, PartialEq, Eq, Structural)]
pub enum Progress {
    Percent(u8),
    /// Done and total counts.
    TaskCount(u32, u32),
    Loading,
}

/// Abstract value of a [`GlobalEvent`].
pub enum GlobalEventView {
    Redraw,
    Status(Seq<char>, StatusLevel, Option<Progress>),
}

/// One event on the host's bus: an opaque "state changed, redraw when
/// convenient" signal, or a status notification for the footer.
#[derive(Debug, Clone, PartialEq)]
pub enum GlobalEvent {
    Redraw,
    Status(String, StatusLevel, Option<Progress>),
}

impl View for GlobalEvent {
    type V = GlobalEventView;

    open spec fn view(&self) -> GlobalEventView {
        match self {
            GlobalEvent::Redraw => GlobalEventView::Redraw,
            GlobalEvent::Status(msg, level, progress) => GlobalEventView::Status(
                msg@,
                *level,
                *progress,
            ),
        }
    }
}

/// Builders for the events the components publish. The host owns the
/// channel; these only say exactly which value each helper produces.
pub struct GlobIO;

impl GlobIO {
    pub fn info(msg: String) -> (e: GlobalEvent)
        ensures
            e@ == GlobalEventView::Status(msg@, StatusLevel::Info, Option::<Progress>::None),
    {
        GlobalEvent::Status(msg, StatusLevel::Info, None)
    }

    pub fn success(msg: String) -> (e: GlobalEvent)
        ensures
            e@ == GlobalEventView::Status(msg@, StatusLevel::Success, Option::<Progress>::None),
    {
        GlobalEvent::Status(msg, StatusLevel::Success, None)
    }

    pub fn warn(msg: String) -> (e: GlobalEvent)
        ensures
            e@ == GlobalEventView::Status(msg@, StatusLevel::Warning, Option::<Progress>::None),
    {
        GlobalEvent::Status(msg, StatusLevel::Warning, None)
    }

    pub fn error(msg: String) -> (e: GlobalEvent)
        ensures
            e@ == GlobalEventView::Status(msg@, StatusLevel::Error, Option::<Progress>::None),
    {
        GlobalEvent::Status(msg, StatusLevel::Error, None)
    }

    pub fn progress(msg: String, level: StatusLevel, prog: Progress) -> (e: GlobalEvent)
        ensures
            e@ == GlobalEventView::Status(msg@, level, Some(prog)),
    {
        GlobalEvent::Status(msg, level, Some(prog))
    }
}

/// Whether an event asks the host to repaint: exactly the opaque
/// state-changed signal does.
pub fn wants_redraw(event: &GlobalEvent) -> (r: bool)
    ensures
        r == (event@ is Redraw),
{
    match event {
        GlobalEvent::Redraw => true,
        _ => false,
    }
}

/// Progress shown with a footer notification.
#[derive(Debug, Clone, Copy, PartialEq, Eq, Structural)]
pub enum ProgressType {
    Percentage(u16),
    /// Done and total counts.
    TaskCount(u32, u32),
    Indeterminate,
}

/// Severity of a footer notification.
#[derive(Debug, Clone, Copy, PartialEq, Eq, Structural)]
pub enum NotificationLevel {
    Info,
    Warning,
    /// Stays until cleared by hand.
    Error,
}

/// A global instruction from a component to the application shell.
#[derive(Debug, Clone, Copy, PartialEq, Eq, Structural)]
pub enum AppAction {
    SwitchTab(usize),
    Quit,
    ClearStatus,
    ReloadConfig,
    SetOverlay(bool),
}

/// Milliseconds an `Info` or `Warning` notification stays before it is
/// cleared on its own; `Error` stays until cleared by hand.
pub const NOTIFICATION_TTL_MS: u64 = 10000;

/// The notification currently shown in the footer.
#[derive(Debug, Clone, PartialEq)]
pub struct ActiveNotification {
    pub content: String,
    pub level: NotificationLevel,
    pub progress: Option<ProgressType>,
    /// The host's clock, in milliseconds, when the notification arrived.
    pub created_at: u64,
}

impl ActiveNotification {
    /// Whether the notification should be cleared now: errors never on
    /// their own, anything else after its time to live.
    pub fn expired(&self, now_ms: u64) -> (r: bool)
        ensures
            r == (self.level != NotificationLevel::Error && now_ms >= self.created_at
                && now_ms - self.created_at >= NOTIFICATION_TTL_MS),
    {
        self.level != NotificationLevel::Error && now_ms >= self.created_at && now_ms
            - self.created_at >= NOTIFICATION_TTL_MS
    }
}

} // verus!
