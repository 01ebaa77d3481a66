//! The supervisor's lifecycle scenarios, driven through the library's
//! decision functions with the host's part simulated.

use atlas::runner::{ControlAction, ExitOutcome, TaskControlMsg, on_control, resolve_exit, stdin_payload};
use atlas::status::TaskStatus;
use atlas::task::TaskDescriptor;
use atlas::task_control::{
    Key, TaskControlComponent, TaskRuntime, ToggleAction, UiAction,
};

fn descriptor(command: &str, args: &[&str]) -> TaskDescriptor {
    TaskDescriptor {
        id: "t".to_string(),
        name: "t".to_string(),
        command: command.to_string(),
        args: args.iter().map(|a| a.to_string()).collect(),
        cwd: None,
        envs: None,
        autostart: false,
        group: "Srv".to_string(),
        log_limit: Some(100),
        restart_policy: None,
    }
}

#[test]
fn echo_run_reaches_stopped_with_its_output_logged() {
    // `sh -c "echo hi"`: started, the pump logs "hi", the wait resolves
    // cleanly, and no Failed status is ever observed.
    let mut rt = TaskRuntime::new(descriptor("sh", &["-c", "echo hi"]));
    assert_eq!(rt.toggle_action(), ToggleAction::Spawn);
    rt.status.begin_running(1234, 0);
    rt.control_attached = true;
    assert!(!matches!(rt.status.current(), TaskStatus::Failed(_)));
    rt.append_output("hi".to_string(), false);
    resolve_exit(&mut rt.status, false, ExitOutcome::Exited { success: true, code: Some(0) });
    rt.control_attached = false;
    assert_eq!(*rt.status.current(), TaskStatus::Stopped);
    assert!((0..rt.logs.len()).any(|i| rt.logs.line(i) == "hi"));
}

#[test]
fn refused_spawn_fails_without_passing_running() {
    // A nonexistent binary: the spawn is refused, so the runner records
    // the failure straight from Stopped.
    let mut rt = TaskRuntime::new(descriptor("nonexistent-binary-xyz", &[]));
    assert_eq!(rt.toggle_action(), ToggleAction::Spawn);
    assert!(!rt.status.is_running());
    rt.status.fail("No such file or directory (os error 2)".to_string());
    assert!(matches!(rt.status.current(), TaskStatus::Failed(_)));
    assert!(!rt.status.is_running());
}

#[test]
fn stopping_a_long_run_resolves_stopped_not_failed() {
    // `sleep 100`: started, then the toggle sends Stop; the kill makes
    // the child exit by signal, and the manual-stop flag still resolves
    // the run to Stopped.
    let mut rt = TaskRuntime::new(descriptor("sleep", &["100"]));
    rt.status.begin_running(77, 0);
    rt.control_attached = true;
    assert_eq!(rt.toggle_action(), ToggleAction::SendStop);
    let msg = rt.stop_message().expect("a running task gets a stop message");
    let (manual_stop, action) = on_control(false, msg);
    assert!(manual_stop);
    assert_eq!(action, ControlAction::Kill);
    resolve_exit(&mut rt.status, manual_stop, ExitOutcome::Exited { success: false, code: None });
    rt.control_attached = false;
    assert_eq!(*rt.status.current(), TaskStatus::Stopped);
}

#[test]
fn submitted_stdin_is_echoed_and_reaches_the_child() {
    // A `cat`-like task: the submitted line is echoed into the log, goes
    // to the child's stdin with a terminator, and the child's echo of it
    // is logged by the pump.
    let mut rt = TaskRuntime::new(descriptor("cat", &[]));
    rt.status.begin_running(5, 0);
    rt.control_attached = true;

    let mut ui = TaskControlComponent::new(1);
    ui.handle_key(Key::Enter);
    for ch in "hello".chars() {
        ui.handle_key(Key::Char(ch));
    }
    let outcome = ui.handle_key(Key::Enter);
    let text = match outcome.action {
        UiAction::SendStdin { index, text } => {
            assert_eq!(index, 0);
            text
        },
        other => panic!("expected a stdin submission, got {:?}", other),
    };
    rt.echo_input(&text);
    let (manual_stop, action) = on_control(false, TaskControlMsg::Stdin(text));
    assert!(!manual_stop);
    assert_eq!(action, ControlAction::WriteStdin("hello\n".to_string()));
    assert_eq!(stdin_payload("hello"), "hello\n");
    // The child reads the line and writes it back; the pump logs it.
    rt.append_output("hello".to_string(), false);
    assert_eq!(rt.logs.line(0).as_str(), ">>> hello");
    assert_eq!(rt.logs.line(1).as_str(), "hello");
}
