//! The text the panel's two screens show. The host draws these strings;
//! everything about their content is computed and specified here.

use vstd::prelude::*;

verus! {

use vstd::string::StringExecFns;
use crate::log_buffer::LogBuffer;
use crate::status::{StatusView, TaskStatus};
use crate::task::TaskDescriptor;
use crate::text::{dec_digits, u64_to_string};

/// The badge shown in the task list for each lifecycle state.
pub open spec fn status_badge_model(s: StatusView) -> Seq<char> {
    match s {
        StatusView::Running { .. } => " RUNNING "@,
        StatusView::Stopped => " STOPPED "@,
        StatusView::Failed { .. } => " FAILED  "@,
    }
}

pub fn status_badge(status: &TaskStatus) -> (r: &'static str)
    ensures
        r@ == status_badge_model(status@),
{
    match status {
        TaskStatus::Running { .. } => " RUNNING ",
        TaskStatus::Stopped => " STOPPED ",
        TaskStatus::Failed(_) => " FAILED  ",
    }
}

/// Whole seconds a running task has been up, on the host's clock.
pub open spec fn uptime_secs_spec(now_ms: u64, start_ms: u64) -> u64 {
    if now_ms >= start_ms {
        (((now_ms - start_ms) as u64) / 1000) as u64
    } else {
        0
    }
}

pub fn uptime_secs(now_ms: u64, start_ms: u64) -> (r: u64)
    ensures
        r == uptime_secs_spec(now_ms, start_ms),
{
    if now_ms >= start_ms {
        (now_ms - start_ms) / 1000
    } else {
        0
    }
}

/// The status line of the detail pane.
pub open spec fn detail_status_model(s: StatusView, now_ms: u64) -> Seq<char> {
    match s {
        StatusView::Running { pid, start_time } => "Running (PID: "@ + dec_digits(pid as nat)
            + ") - Uptime: "@ + dec_digits(uptime_secs_spec(now_ms, start_time) as nat) + "s"@,
        StatusView::Failed { reason } => "Failed: "@ + reason,
        StatusView::Stopped => "Inactive / Stopped"@,
    }
}

pub fn detail_status_line(status: &TaskStatus, now_ms: u64) -> (r: String)
    ensures
        r@ == detail_status_model(status@, now_ms),
{
    match status {
        TaskStatus::Running { pid, start_time } => {
            let mut r = String::from_str("Running (PID: ");
            r.append(u64_to_string(*pid as u64).as_str());
            r.append(") - Uptime: ");
            r.append(u64_to_string(uptime_secs(now_ms, *start_time)).as_str());
            r.append("s");
            r
        },
        TaskStatus::Failed(reason) => {
            let mut r = String::from_str("Failed: ");
            r.append(reason.as_str());
            r
        },
        TaskStatus::Stopped => String::from_str("Inactive / Stopped"),
    }
}

/// The argument list as shown in the detail pane: quoted, comma
/// separated, in brackets.
pub open spec fn args_list_model(args: Seq<Seq<char>>) -> Seq<char>
    decreases args.len(),
{
    if args.len() == 0 {
        "[]"@
    } else if args.len() == 1 {
        "[\""@ + args[0] + "\"]"@
    } else {
        args_list_model(args.drop_last()).drop_last() + ", \""@ + args.last() + "\"]"@
    }
}

pub fn args_list(args: &Vec<String>) -> (r: String)
    ensures
        r@ == args_list_model(args.deep_view()),
{
    let ghost all = args.deep_view();
    if args.len() == 0 {
        return String::from_str("[]");
    }
    let mut r = String::from_str("[\"");
    r.append(args[0].as_str());
    r.append("\"]");
    proof {
        assert(all.take(1) =~= seq![all[0]]);
        assert(r@ =~= args_list_model(all.take(1)));
    }
    let mut i: usize = 1;
    while i < args.len()
        invariant
            1 <= i <= args.len(),
            all == args.deep_view(),
            all.len() >= 1,
            r@ == args_list_model(all.take(i as int)),
        decreases args.len() - i,
    {
        proof {
            assert(args_list_model(all.take(i as int)).len() >= 1) by {
                lemma_args_list_nonempty(all.take(i as int));
            }
        }
        let ghost prev = r@;
        truncate_last(&mut r);
        r.append(", \"");
        r.append(args[i].as_str());
        r.append("\"]");
        proof {
            assert(all.take(i + 1).drop_last() =~= all.take(i as int));
            assert(all.take(i + 1).last() == all[i as int]);
            assert(r@ =~= args_list_model(all.take(i + 1)));
        }
        i = i + 1;
    }
    proof {
        assert(all.take(args.len() as int) =~= all);
    }
    r
}

proof fn lemma_args_list_nonempty(args: Seq<Seq<char>>)
    ensures
        args.len() >= 1 ==> args_list_model(args).len() >= 1,
    decreases args.len(),
{
    if args.len() > 1 {
        lemma_args_list_nonempty(args.drop_last());
        reveal_strlit(", \"");
        reveal_strlit("\"]");
    } else if args.len() == 1 {
        reveal_strlit("[\"");
        reveal_strlit("\"]");
    }
}

/// Relies on `String::pop`: removes and returns the last character, or
/// `None` when the string is empty.
#[verifier::external_body]
fn pop_char(s: &mut String) -> (r: Option<char>)
    ensures
        old(s)@.len() == 0 ==> r is None && final(s)@ == old(s)@,
        old(s)@.len() > 0 ==> r == Some(old(s)@.last())
            && final(s)@ == old(s)@.drop_last(),
{
    s.pop()
}

/// Drop the last character of a non-empty string.
fn truncate_last(s: &mut String)
    requires
        old(s)@.len() > 0,
    ensures
        final(s)@ == old(s)@.drop_last(),
{
    let _ = pop_char(s);
}

/// One line per labelled descriptor field, the status line, a blank
/// line, and the key hints: the detail pane of the List screen.
pub open spec fn detail_lines_model(desc: crate::task::DescView, s: StatusView, now_ms: u64) -> Seq<
    Seq<char>,
> {
    seq![
        "* NAME:    "@ + desc.name,
        "* STATUS:  "@ + detail_status_model(s, now_ms),
        "* COMMAND: "@ + desc.command,
        "* ARGS:    "@ + args_list_model(desc.args),
        ""@,
        " [x] Start/Stop   [Enter] View Logs   [Up/Down] Navigate "@,
    ]
}

pub fn detail_lines(desc: &TaskDescriptor, status: &TaskStatus, now_ms: u64) -> (r: Vec<String>)
    ensures
        r.deep_view() == detail_lines_model(desc@, status@, now_ms),
{
    let mut r: Vec<String> = Vec::new();
    let mut name_line = String::from_str("* NAME:    ");
    name_line.append(desc.name.as_str());
    r.push(name_line);
    let mut status_line = String::from_str("* STATUS:  ");
    status_line.append(detail_status_line(status, now_ms).as_str());
    r.push(status_line);
    let mut command_line = String::from_str("* COMMAND: ");
    command_line.append(desc.command.as_str());
    r.push(command_line);
    let mut args_line = String::from_str("* ARGS:    ");
    args_line.append(args_list(&desc.args).as_str());
    r.push(args_line);
    r.push(String::new());
    r.push(String::from_str(" [x] Start/Stop   [Enter] View Logs   [Up/Down] Navigate "));
    proof {
        reveal_strlit("");
        assert(r.deep_view() =~~= detail_lines_model(desc@, status@, now_ms));
    }
    r
}

/// All captured lines as one text, newline separated: the body of the
/// Log screen.
pub open spec fn joined_model(lines: Seq<Seq<char>>) -> Seq<char>
    decreases lines.len(),
{
    if lines.len() == 0 {
        Seq::empty()
    } else if lines.len() == 1 {
        lines[0]
    } else {
        joined_model(lines.drop_last()).push('\n') + lines.last()
    }
}

pub fn joined_logs(logs: &LogBuffer) -> (r: String)
    ensures
        r@ == joined_model(logs@),
{
    let mut r = String::new();
    let n = logs.len();
    if n == 0 {
        return r;
    }
    r.append(logs.line(0).as_str());
    proof {
        assert(logs@.take(1) =~= seq![logs@[0]]);
        assert(r@ =~= joined_model(logs@.take(1)));
    }
    let mut i: usize = 1;
    while i < n
        invariant
            1 <= i <= n,
            n == logs@.len(),
            r@ == joined_model(logs@.take(i as int)),
        decreases n - i,
    {
        r.append("\n");
        r.append(logs.line(i).as_str());
        proof {
            reveal_strlit("\n");
            assert(logs@.take(i + 1).drop_last() =~= logs@.take(i as int));
            assert(logs@.take(i + 1).last() == logs@[i as int]);
            assert(r@ =~= joined_model(logs@.take(i + 1)));
        }
        i = i + 1;
    }
    proof {
        assert(logs@.take(logs@.len() as int) =~= logs@);
    }
    r
}

/// Where the input box's cursor sits: one column past the composed text,
/// clamped to the surface's coordinate range.
pub open spec fn cursor_col_spec(x: u16, input_chars: nat) -> u16 {
    if x + input_chars + 1 > u16::MAX {
        u16::MAX
    } else {
        (x + input_chars + 1) as u16
    }
}

pub fn cursor_col(x: u16, input_chars: usize) -> (r: u16)
    ensures
        r == cursor_col_spec(x, input_chars as nat),
{
    let clamped: u64 = if input_chars > 65534 {
        65535
    } else {
        input_chars as u64
    };
    let total: u64 = x as u64 + clamped + 1;
    if total > u16::MAX as u64 {
        u16::MAX
    } else {
        total as u16
    }
}

} // verus!
