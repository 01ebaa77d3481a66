use atlas::db::AtlasDB;
use atlas::log_buffer::LogBuffer;
use atlas::render::{
    args_list, cursor_col, detail_lines, detail_status_line, joined_logs, status_badge,
    uptime_secs,
};
use atlas::status::TaskStatus;
use atlas::task::TaskDescriptor;
use atlas::text::{i32_to_string, u64_to_string};

#[test]
fn decimal_rendering_is_exact() {
    assert_eq!(u64_to_string(0), "0");
    assert_eq!(u64_to_string(7), "7");
    assert_eq!(u64_to_string(42), "42");
    assert_eq!(u64_to_string(1000), "1000");
    assert_eq!(u64_to_string(u64::MAX), "18446744073709551615");
    assert_eq!(i32_to_string(0), "0");
    assert_eq!(i32_to_string(-1), "-1");
    assert_eq!(i32_to_string(i32::MIN), "-2147483648");
    assert_eq!(i32_to_string(i32::MAX), "2147483647");
}

#[test]
fn badges_match_the_three_states() {
    assert_eq!(status_badge(&TaskStatus::Stopped), " STOPPED ");
    assert_eq!(status_badge(&TaskStatus::Running { pid: 1, start_time: 0 }), " RUNNING ");
    assert_eq!(status_badge(&TaskStatus::Failed("x".to_string())), " FAILED  ");
}

#[test]
fn uptime_is_whole_seconds_and_never_negative() {
    assert_eq!(uptime_secs(5000, 2000), 3);
    assert_eq!(uptime_secs(2999, 2000), 0);
    assert_eq!(uptime_secs(1000, 2000), 0);
}

#[test]
fn status_line_shows_pid_uptime_or_reason() {
    let running = TaskStatus::Running { pid: 321, start_time: 1000 };
    assert_eq!(detail_status_line(&running, 13000), "Running (PID: 321) - Uptime: 12s");
    let failed = TaskStatus::Failed("Exit Code: 9".to_string());
    assert_eq!(detail_status_line(&failed, 13000), "Failed: Exit Code: 9");
    assert_eq!(detail_status_line(&TaskStatus::Stopped, 13000), "Inactive / Stopped");
}

#[test]
fn args_are_listed_quoted_and_bracketed() {
    assert_eq!(args_list(&vec![]), "[]");
    assert_eq!(args_list(&vec!["aux".to_string()]), "[\"aux\"]");
    assert_eq!(
        args_list(&vec!["-c".to_string(), "echo hi".to_string()]),
        "[\"-c\", \"echo hi\"]"
    );
}

#[test]
fn detail_pane_lines_are_composed_exactly() {
    let desc = TaskDescriptor {
        id: "ps".to_string(),
        name: "ProcessList".to_string(),
        command: "ps".to_string(),
        args: vec!["aux".to_string()],
        cwd: None,
        envs: None,
        autostart: false,
        group: "Srv".to_string(),
        log_limit: None,
        restart_policy: None,
    };
    let lines = detail_lines(&desc, &TaskStatus::Stopped, 0);
    assert_eq!(
        lines,
        vec![
            "* NAME:    ProcessList".to_string(),
            "* STATUS:  Inactive / Stopped".to_string(),
            "* COMMAND: ps".to_string(),
            "* ARGS:    [\"aux\"]".to_string(),
            "".to_string(),
            " [x] Start/Stop   [Enter] View Logs   [Up/Down] Navigate ".to_string(),
        ]
    );
}

#[test]
fn log_view_joins_lines_with_newlines() {
    let mut b = LogBuffer::new(10);
    assert_eq!(joined_logs(&b), "");
    b.append("one".to_string());
    assert_eq!(joined_logs(&b), "one");
    b.append("two".to_string());
    b.append("three".to_string());
    assert_eq!(joined_logs(&b), "one\ntwo\nthree");
}

#[test]
fn cursor_sits_one_past_the_input_and_clamps() {
    assert_eq!(cursor_col(4, 0), 5);
    assert_eq!(cursor_col(4, 11), 16);
    assert_eq!(cursor_col(65534, 10), u16::MAX);
}

#[test]
fn sizes_format_with_two_decimals_per_unit() {
    assert_eq!(AtlasDB::format_size(0), "0.00 KB");
    assert_eq!(AtlasDB::format_size(1024), "1.00 KB");
    assert_eq!(AtlasDB::format_size(1536), "1.50 KB");
    assert_eq!(AtlasDB::format_size(1048575), "1023.99 KB");
    assert_eq!(AtlasDB::format_size(1048576), "1.00 MB");
    assert_eq!(AtlasDB::format_size(10 * 1048576), "10.00 MB");
    assert_eq!(AtlasDB::format_size(3 * 1073741824 + 1073741824 / 2), "3.50 GB");
}
