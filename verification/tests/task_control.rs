use atlas::runner::TaskControlMsg;
use atlas::status::TaskStatus;
use atlas::task::{RestartPolicy, ScriptFile, TaskDescriptor, load_descriptors, script_descriptor};
use atlas::task_control::{
    Key, KeyOutcome, RestartAction, TaskControlComponent, TaskRuntime, ToggleAction, UiAction,
    ViewMode, auto_start_tasks, chars_to_string, restart_action,
};

fn descriptor(id: &str, autostart: bool) -> TaskDescriptor {
    TaskDescriptor {
        id: id.to_string(),
        name: id.to_string(),
        command: "sh".to_string(),
        args: vec!["-c".to_string(), "echo hi".to_string()],
        cwd: None,
        envs: None,
        autostart,
        group: "Srv".to_string(),
        log_limit: Some(4),
        restart_policy: None,
    }
}

#[test]
fn script_descriptor_uses_the_interpreter_template() {
    let d = script_descriptor("backup", "/home/u/script/backup.ts", "/home/u/script");
    assert_eq!(d.id, "deno_backup");
    assert_eq!(d.name, "[deno] backup");
    assert_eq!(d.command, "deno");
    assert_eq!(
        d.args,
        vec![
            "run".to_string(),
            "-A".to_string(),
            "--unstable-kv".to_string(),
            "--unstable-cron".to_string(),
            "/home/u/script/backup.ts".to_string(),
        ]
    );
    assert_eq!(d.cwd, Some("/home/u/script".to_string()));
    assert_eq!(d.envs, None);
    assert!(!d.autostart);
    assert_eq!(d.group, "Scripts");
    assert_eq!(d.log_limit, Some(1000));
    assert_eq!(d.restart_policy, Some(RestartPolicy::Never));
}

#[test]
fn load_keeps_declared_order_then_scripts() {
    let declared = vec![descriptor("one", false), descriptor("two", true)];
    let scripts = vec![
        ScriptFile { stem: "a".to_string(), path: "/s/a.ts".to_string() },
        ScriptFile { stem: "b".to_string(), path: "/s/b.ts".to_string() },
    ];
    let all = load_descriptors(Some(declared), &scripts, "/s");
    assert_eq!(all.len(), 4);
    assert_eq!(all[0].id, "one");
    assert_eq!(all[1].id, "two");
    assert_eq!(all[2].id, "deno_a");
    assert_eq!(all[3].id, "deno_b");
}

#[test]
fn load_without_a_parsed_document_still_yields_script_tasks() {
    let scripts = vec![ScriptFile { stem: "a".to_string(), path: "/s/a.ts".to_string() }];
    let all = load_descriptors(None, &scripts, "/s");
    assert_eq!(all.len(), 1);
    assert_eq!(all[0].id, "deno_a");
}

#[test]
fn effective_log_limit_defaults_to_a_thousand() {
    let mut d = descriptor("one", false);
    assert_eq!(d.effective_log_limit(), 4);
    d.log_limit = None;
    assert_eq!(d.effective_log_limit(), 1000);
}

#[test]
fn autostart_selects_only_marked_tasks_in_order() {
    let descs = vec![
        descriptor("a", false),
        descriptor("b", true),
        descriptor("c", false),
        descriptor("d", true),
    ];
    assert_eq!(auto_start_tasks(&descs), vec![1, 3]);
    assert_eq!(auto_start_tasks(&Vec::<TaskDescriptor>::new()), Vec::<usize>::new());
}

#[test]
fn runtime_starts_stopped_with_empty_log() {
    let rt = TaskRuntime::new(descriptor("one", false));
    assert_eq!(*rt.status.current(), TaskStatus::Stopped);
    assert_eq!(rt.logs.len(), 0);
    assert_eq!(rt.logs.capacity(), 4);
    assert!(!rt.control_attached);
}

#[test]
fn runtime_append_tags_stderr_and_echoes_input() {
    let mut rt = TaskRuntime::new(descriptor("one", false));
    rt.append_output("out".to_string(), false);
    rt.append_output("err".to_string(), true);
    rt.echo_input("typed");
    assert_eq!(rt.logs.line(0).as_str(), "out");
    assert_eq!(rt.logs.line(1).as_str(), "[ERR] err");
    assert_eq!(rt.logs.line(2).as_str(), ">>> typed");
}

#[test]
fn stop_on_a_stopped_task_sends_nothing() {
    let rt = TaskRuntime::new(descriptor("one", false));
    assert_eq!(rt.stop_message(), None);
    assert_eq!(*rt.status.current(), TaskStatus::Stopped);
}

#[test]
fn stop_on_a_running_task_sends_stop() {
    let mut rt = TaskRuntime::new(descriptor("one", false));
    rt.status.begin_running(9, 100);
    rt.control_attached = true;
    assert_eq!(rt.stop_message(), Some(TaskControlMsg::Stop));
}

#[test]
fn stop_without_a_mailbox_sends_nothing() {
    let mut rt = TaskRuntime::new(descriptor("one", false));
    rt.status.begin_running(9, 100);
    assert_eq!(rt.stop_message(), None);
}

#[test]
fn toggle_spawns_when_not_running_and_stops_when_running() {
    let mut rt = TaskRuntime::new(descriptor("one", false));
    assert_eq!(rt.toggle_action(), ToggleAction::Spawn);
    rt.status.begin_running(9, 100);
    assert_eq!(rt.toggle_action(), ToggleAction::SendStop);
}

#[test]
fn restart_policy_drives_the_failed_resolution() {
    let failed = TaskStatus::Failed("Exit Code: 3".to_string());
    let stopped = TaskStatus::Stopped;
    assert_eq!(restart_action(Some(RestartPolicy::Always), &failed), RestartAction::Respawn);
    assert_eq!(restart_action(Some(RestartPolicy::Warn), &failed), RestartAction::Notify);
    assert_eq!(restart_action(Some(RestartPolicy::Never), &failed), RestartAction::Ignore);
    assert_eq!(restart_action(None, &failed), RestartAction::Ignore);
    assert_eq!(restart_action(Some(RestartPolicy::Always), &stopped), RestartAction::Ignore);
}

#[test]
fn list_navigation_wraps_both_ways() {
    let mut c = TaskControlComponent::new(3);
    assert_eq!(c.selected_idx, 0);
    c.handle_key(Key::Down);
    assert_eq!(c.selected_idx, 1);
    c.handle_key(Key::Char('j'));
    assert_eq!(c.selected_idx, 2);
    c.handle_key(Key::Down);
    assert_eq!(c.selected_idx, 0);
    c.handle_key(Key::Up);
    assert_eq!(c.selected_idx, 2);
    c.handle_key(Key::Char('k'));
    assert_eq!(c.selected_idx, 1);
}

#[test]
fn toggle_key_reports_the_selected_task() {
    let mut c = TaskControlComponent::new(3);
    c.handle_key(Key::Down);
    let r = c.handle_key(Key::Char('x'));
    assert_eq!(r, KeyOutcome { consumed: true, action: UiAction::Toggle(1) });
}

#[test]
fn toggle_key_with_no_tasks_does_nothing() {
    let mut c = TaskControlComponent::new(0);
    let r = c.handle_key(Key::Char('x'));
    assert_eq!(r, KeyOutcome { consumed: true, action: UiAction::Idle });
    let r = c.handle_key(Key::Down);
    assert!(r.consumed);
    assert_eq!(c.selected_idx, 0);
}

#[test]
fn enter_opens_the_log_view_and_esc_returns() {
    let mut c = TaskControlComponent::new(2);
    c.handle_key(Key::Enter);
    assert_eq!(c.view_mode, ViewMode::Log);
    c.handle_key(Key::Char('h'));
    c.handle_key(Key::Char('i'));
    assert_eq!(chars_to_string(&c.input), "hi");
    c.handle_key(Key::Esc);
    assert_eq!(c.view_mode, ViewMode::List);
    assert!(c.input.is_empty());
}

#[test]
fn log_mode_edits_and_submits_the_input_line() {
    let mut c = TaskControlComponent::new(2);
    c.handle_key(Key::Down);
    c.handle_key(Key::Enter);
    for ch in "hey!".chars() {
        c.handle_key(Key::Char(ch));
    }
    c.handle_key(Key::Backspace);
    let r = c.handle_key(Key::Enter);
    assert_eq!(
        r,
        KeyOutcome {
            consumed: true,
            action: UiAction::SendStdin { index: 1, text: "hey".to_string() },
        }
    );
    assert!(c.input.is_empty());
    // A second Enter with nothing composed submits nothing.
    let r = c.handle_key(Key::Enter);
    assert_eq!(r, KeyOutcome { consumed: true, action: UiAction::Idle });
}

#[test]
fn log_mode_scrolls_and_saturates_at_zero() {
    let mut c = TaskControlComponent::new(1);
    c.handle_key(Key::Enter);
    c.handle_key(Key::Up);
    assert_eq!(c.log_scroll, 0);
    c.handle_key(Key::Down);
    c.handle_key(Key::Down);
    assert_eq!(c.log_scroll, 2);
    c.handle_key(Key::Up);
    assert_eq!(c.log_scroll, 1);
}

#[test]
fn unmapped_keys_are_left_to_the_host() {
    let mut c = TaskControlComponent::new(1);
    let r = c.handle_key(Key::Other);
    assert!(!r.consumed);
    let r = c.handle_key(Key::Char('q'));
    assert!(!r.consumed);
}
