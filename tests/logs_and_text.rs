use hyperv::config::Config;
use hyperv::logs::{FollowAction, FsOp, LogInfo, LogManager, LogType, PollRead};
use hyperv::task::TaskStatus;
use hyperv::text::{decimal, split_lines};
use hyperv::HyperVError;

fn s(x: &str) -> String {
    x.to_string()
}

#[test]
fn log_type_parses_any_case() {
    assert_eq!(LogType::parse("STDOUT").unwrap(), LogType::Stdout);
    assert_eq!(LogType::parse("StdErr").unwrap(), LogType::Stderr);
    assert_eq!(LogType::parse("both").unwrap(), LogType::Both);
    assert_eq!("BOTH".parse::<LogType>().unwrap(), LogType::Both);
    assert!(matches!(LogType::parse("Err"), Err(HyperVError::InvalidLogType(ref t)) if t == "Err"));
    assert!(matches!(LogType::from_lowercase("stdout", "STDOUT"), Ok(LogType::Stdout)));
}

#[test]
fn rotation_happens_only_past_threshold() {
    let max = hyperv::constants::MAX_LOG_SIZE;
    assert!(LogManager::rotation_plan("/l/stdout.log", true, max, true).is_empty());
    assert!(LogManager::rotation_plan("/l/stdout.log", false, max + 1, true).is_empty());
    let ops = LogManager::rotation_plan("/l/stdout.log", true, max + 1, false);
    assert_eq!(ops.len(), 1);
    assert!(matches!(ops[0], FsOp::Rename(ref a, ref b) if a == "/l/stdout.log" && b == "/l/stdout.log.old"));
    let ops = LogManager::rotation_plan("/l/stdout.log", true, max + 1, true);
    assert_eq!(ops.len(), 2);
    assert!(matches!(ops[0], FsOp::RemoveFile(ref b) if b == "/l/stdout.log.old"));
    assert!(matches!(ops[1], FsOp::Rename(_, _)));
    assert_eq!(LogManager::backup_path("/l/stderr.log"), "/l/stderr.log.old");
}

#[test]
fn tail_keeps_last_lines() {
    let lines = vec![s("a"), s("b"), s("c")];
    assert_eq!(LogManager::tail_of(Some(lines.clone()), 2), vec![s("b"), s("c")]);
    assert_eq!(LogManager::tail_of(Some(lines.clone()), 5), lines);
    assert!(LogManager::tail_of(Some(lines), 0).is_empty());
    assert_eq!(LogManager::tail_of(None, 3), vec![s("Log file not found or empty")]);
}

#[test]
fn both_streams_share_the_line_count() {
    assert_eq!(LogManager::lines_per_stream(LogType::Both, 51), 25);
    assert_eq!(LogManager::lines_per_stream(LogType::Stdout, 51), 51);
    assert_eq!(LogManager::lines_per_stream(LogType::Stderr, 0), 0);
}

#[test]
fn following_labels_and_sleeps() {
    let t = LogManager::follow_both_tick(PollRead::Line(s("x\n")), PollRead::Line(s("y\n")));
    assert_eq!(t.output, vec![s("[OUT] x\n"), s("[ERR] y\n")]);
    assert!(!t.sleep);
    let t = LogManager::follow_both_tick(PollRead::NoData, PollRead::Line(s("e\n")));
    assert_eq!(t.output, vec![s("[ERR] e\n")]);
    assert!(!t.sleep);
    let t = LogManager::follow_both_tick(PollRead::NoData, PollRead::Failed);
    assert!(t.output.is_empty());
    assert!(t.sleep);
    assert!(matches!(LogManager::follow_single_step(PollRead::Line(s("l"))), FollowAction::Print(ref l) if l == "l"));
    assert!(matches!(LogManager::follow_single_step(PollRead::NoData), FollowAction::Sleep));
    assert!(matches!(LogManager::follow_single_step(PollRead::Failed), FollowAction::Stop));
}

fn size(n: u64) -> String {
    LogInfo { exists: true, size: n, line_count: 0 }.format_size()
}

#[test]
fn sizes_read_like_float_formatting() {
    assert_eq!(size(0), "0 B");
    assert_eq!(size(1023), "1023 B");
    assert_eq!(size(1024), "1.0 KB");
    assert_eq!(size(1536), "1.5 KB");
    assert_eq!(size(10485760), "10.0 MB");
    for n in [1280u64, 1310720, 1100, 2047, 1048575, 1048576 + 52428, 3 * 1048576 + 157286] {
        let expected = if n < 1048576 {
            format!("{:.1} KB", n as f64 / 1024.0)
        } else {
            format!("{:.1} MB", n as f64 / (1024.0 * 1024.0))
        };
        assert_eq!(size(n), expected);
    }
}

#[test]
fn text_helpers() {
    assert_eq!(decimal(0), "0");
    assert_eq!(decimal(4294967295), "4294967295");
    assert_eq!(split_lines("a\r\nb\n\nc"), vec![s("a"), s("b"), s(""), s("c")]);
    assert_eq!(split_lines("x\n"), vec![s("x")]);
    assert!(split_lines("").is_empty());
}

#[test]
fn config_paths() {
    let c = Config::in_dir(s("/tmp/hv"));
    assert_eq!(c.tasks_file, "/tmp/hv/tasks.json");
    assert_eq!(c.logs_dir, "/tmp/hv/logs");
    assert_eq!(c.task_log_dir("abc"), "/tmp/hv/logs/abc");
    assert_eq!(c.stdout_log_path("abc"), "/tmp/hv/logs/abc/stdout.log");
    assert_eq!(c.stderr_log_path("abc"), "/tmp/hv/logs/abc/stderr.log");
    let c = Config::in_dir(s("/tmp/hv/"));
    assert_eq!(c.tasks_file, "/tmp/hv/tasks.json");
    let c = Config::under_config_home("/home/u/.config");
    assert_eq!(c.config_dir, "/home/u/.config/hyperV");
    if let Ok(c) = Config::locate() {
        assert!(c.tasks_file.ends_with("hyperV/tasks.json"));
    }
}

#[test]
fn status_labels() {
    assert_eq!(TaskStatus::Stopped.display_with_icon(), "🔴 Stopped");
    assert_eq!(TaskStatus::Running.display_with_icon(), "🟢 Running");
    assert_eq!(TaskStatus::Failed.display_with_icon(), "🟡 Failed");
}
