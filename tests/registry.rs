use hyperv::config::Config;
use hyperv::manager::{LaunchSpec, Removal, StartFacts, StopPlan, TaskManager};
use hyperv::process::{ProcessManager, WaitStatus};
use hyperv::task::{Task, TaskStatus};
use hyperv::HyperVError;

fn s(x: &str) -> String {
    x.to_string()
}

fn manager() -> TaskManager {
    TaskManager::with_tasks(Vec::new(), Config::in_dir(s("/tmp/hv")))
}

fn add(tm: &mut TaskManager, name: &str, auto_restart: bool) -> Result<(), HyperVError> {
    tm.create_task(s(name), s("/bin/echo"), vec![s("hi")], Vec::new(), None, auto_restart, None)
}

fn add_with_id(tm: &mut TaskManager, id: &str, name: &str) -> Result<(), HyperVError> {
    tm.create_task_with_id(s(id), s(name), s("/bin/true"), Vec::new(), Vec::new(), None, false, None)
}

fn facts(alive: bool) -> StartFacts {
    StartFacts { alive, workdir_exists: true, dotenv: None }
}

fn task<'a>(tm: &'a TaskManager, ident: &str) -> &'a Task {
    tm.find_task(ident).unwrap()
}

#[test]
fn created_tasks_get_distinct_ids() {
    let mut tm = manager();
    for i in 0..5 {
        add(&mut tm, &format!("task{}", i), false).unwrap();
    }
    assert_eq!(tm.task_count(), 5);
    let ids: Vec<String> = tm.tasks().iter().map(|t| t.id.clone()).collect();
    for (i, a) in ids.iter().enumerate() {
        assert_eq!(a.len(), 36);
        for b in ids.iter().skip(i + 1) {
            assert_ne!(a, b);
        }
    }
}

#[test]
fn duplicate_name_fails_and_leaves_registry() {
    let mut tm = manager();
    add(&mut tm, "echo1", false).unwrap();
    let r = add(&mut tm, "echo1", true);
    assert!(matches!(r, Err(HyperVError::TaskExists(ref n)) if n == "echo1"));
    assert_eq!(tm.task_count(), 1);
    assert!(!tm.tasks()[0].auto_restart);
}

#[test]
fn invalid_env_var_is_rejected() {
    let mut tm = manager();
    let r = tm.create_task(s("t"), s("/bin/true"), Vec::new(), vec![s("A=1"), s("BAD"), s("ALSO")], None, false, None);
    assert!(matches!(r, Err(HyperVError::InvalidEnvVar(ref v)) if v == "BAD"));
    assert_eq!(tm.task_count(), 0);
}

#[test]
fn explicit_env_wins_over_dotenv() {
    let mut tm = manager();
    let vars = vec![s("A=1"), s("B=x=y"), s("A=3")];
    let dotenv = s("A=file\nC=4\r\nnot an assignment\nC=5\n");
    tm.create_task(s("t"), s("/bin/true"), Vec::new(), vars, Some(s("/srv")), false, Some(dotenv)).unwrap();
    let t = task(&tm, "t");
    assert_eq!(t.env, vec![(s("A"), s("3")), (s("B"), s("x=y")), (s("C"), s("4"))]);
    assert_eq!(t.workdir, Some(s("/srv")));
}

#[test]
fn new_task_starts_stopped_with_log_paths() {
    let mut tm = manager();
    add_with_id(&mut tm, "abc123", "first").unwrap();
    let t = task(&tm, "first");
    assert_eq!(t.status, TaskStatus::Stopped);
    assert_eq!(t.pid, None);
    assert_eq!(t.restart_count, 0);
    assert_eq!(t.last_exit_code, None);
    assert_eq!(t.last_started, None);
    assert!(!t.created_at.is_empty());
    assert_eq!(t.stdout_log_path, Some(s("/tmp/hv/logs/abc123/stdout.log")));
    assert_eq!(t.stderr_log_path, Some(s("/tmp/hv/logs/abc123/stderr.log")));
}

#[test]
fn taken_id_is_rejected() {
    let mut tm = manager();
    add_with_id(&mut tm, "abc123", "first").unwrap();
    let r = add_with_id(&mut tm, "abc123", "second");
    assert!(matches!(r, Err(HyperVError::TaskExists(ref n)) if n == "abc123"));
    assert_eq!(tm.task_count(), 1);
}

#[test]
fn shared_prefix_resolves_to_earlier_task() {
    let mut tm = manager();
    add_with_id(&mut tm, "abc123", "first").unwrap();
    add_with_id(&mut tm, "abc456", "second").unwrap();
    assert_eq!(task(&tm, "abc").name, "first");
    assert_eq!(task(&tm, "abc").name, "first");
    assert_eq!(task(&tm, "abc4").name, "second");
    assert_eq!(task(&tm, "abc456").name, "second");
    assert_eq!(task(&tm, "second").id, "abc456");
    assert_eq!(tm.find_task_index("abc"), Some(0));
    assert!(tm.find_task("zzz").is_none());
}

#[test]
fn malformed_registry_loads_empty() {
    let mut a = manager();
    add_with_id(&mut a, "abc123", "same").unwrap();
    let mut b = manager();
    add_with_id(&mut b, "def456", "other").unwrap();
    let mut tasks: Vec<Task> = Vec::new();
    for t in a.tasks().iter().chain(b.tasks().iter()) {
        tasks.push(Task { name: s("same"), ..copy(t) });
    }
    let tm = TaskManager::with_tasks(tasks, Config::in_dir(s("/tmp/hv")));
    assert_eq!(tm.task_count(), 0);
}

fn copy(t: &Task) -> Task {
    Task {
        id: t.id.clone(),
        name: t.name.clone(),
        binary: t.binary.clone(),
        args: t.args.clone(),
        env: t.env.clone(),
        workdir: t.workdir.clone(),
        auto_restart: t.auto_restart,
        status: t.status,
        created_at: t.created_at.clone(),
        pid: t.pid,
        stdout_log_path: t.stdout_log_path.clone(),
        stderr_log_path: t.stderr_log_path.clone(),
        last_started: t.last_started.clone(),
        restart_count: t.restart_count,
        last_exit_code: t.last_exit_code,
    }
}

fn start(tm: &mut TaskManager, ident: &str, pid: u32) -> LaunchSpec {
    let launch = tm.prepare_start(ident, &facts(false)).unwrap();
    tm.record_start(ident, Ok(pid)).unwrap();
    launch
}

#[test]
fn echo_task_end_to_end() {
    let mut tm = manager();
    let mut pm: ProcessManager<u8> = ProcessManager::new();
    add(&mut tm, "echo1", false).unwrap();
    assert_eq!(tm.task_count(), 1);
    assert_eq!(task(&tm, "echo1").status, TaskStatus::Stopped);

    let launch = start(&mut tm, "echo1", 4242);
    assert_eq!(launch.binary, "/bin/echo");
    assert_eq!(launch.args, vec![s("hi")]);
    assert_eq!(launch.stdout_log, format!("/tmp/hv/logs/{}/stdout.log", launch.task_id));
    pm.track(launch.task_id.clone(), 7);
    let t = task(&tm, "echo1");
    assert_eq!(t.status, TaskStatus::Running);
    assert_eq!(t.pid, Some(4242));
    assert!(t.last_started.is_some());

    // The process exits with code 0; the daemon tick reaps it.
    let codes = pm.cleanup_zombies(&vec![WaitStatus::Exited(Some(0))]);
    assert_eq!(codes, vec![(launch.task_id.clone(), 0)]);
    assert_eq!(pm.running_count(), 0);
    assert!(tm.cleanup(&codes, &Vec::new()));
    let t = task(&tm, "echo1");
    assert_eq!(t.status, TaskStatus::Failed);
    assert_eq!(t.last_exit_code, Some(0));
    assert_eq!(t.pid, None);
}

#[test]
fn start_of_running_task_is_refused() {
    let mut tm = manager();
    add(&mut tm, "web", false).unwrap();
    start(&mut tm, "web", 10);
    let r = tm.prepare_start("web", &facts(true));
    assert!(matches!(r, Err(HyperVError::TaskAlreadyRunning(ref n)) if n == "web"));
    assert_eq!(task(&tm, "web").pid, Some(10));
}

#[test]
fn start_after_silent_death_marks_failed_then_launches() {
    let mut tm = manager();
    add(&mut tm, "web", false).unwrap();
    start(&mut tm, "web", 10);
    let launch = tm.prepare_start("web", &facts(false));
    assert!(launch.is_ok());
    let t = task(&tm, "web");
    assert_eq!(t.status, TaskStatus::Failed);
    assert_eq!(t.pid, None);
}

#[test]
fn start_with_missing_workdir_fails() {
    let mut tm = manager();
    tm.create_task(s("w"), s("/bin/true"), Vec::new(), Vec::new(), Some(s("/nope")), false, None).unwrap();
    let f = StartFacts { alive: false, workdir_exists: false, dotenv: None };
    let r = tm.prepare_start("w", &f);
    assert!(matches!(r, Err(HyperVError::WorkdirNotFound(ref d)) if d == "/nope"));
    let r = tm.prepare_start("missing", &f);
    assert!(matches!(r, Err(HyperVError::TaskNotFound(ref d)) if d == "missing"));
}

#[test]
fn start_merges_dotenv_of_workdir() {
    let mut tm = manager();
    tm.create_task(s("w"), s("/bin/true"), Vec::new(), vec![s("K=task")], Some(s("/srv")), false, None).unwrap();
    let f = StartFacts { alive: false, workdir_exists: true, dotenv: Some(s("K=file\nX=1")) };
    let launch = tm.prepare_start("w", &f).unwrap();
    assert_eq!(launch.env, vec![(s("K"), s("task")), (s("X"), s("1"))]);
    assert_eq!(launch.workdir, Some(s("/srv")));
}

#[test]
fn failed_launch_marks_task_failed() {
    let mut tm = manager();
    add(&mut tm, "bad", false).unwrap();
    tm.prepare_start("bad", &facts(false)).unwrap();
    let r = tm.record_start("bad", Err(HyperVError::BinaryNotExecutable(s("/bin/echo"))));
    assert!(matches!(r, Err(HyperVError::BinaryNotExecutable(_))));
    assert_eq!(task(&tm, "bad").status, TaskStatus::Failed);
}

#[test]
fn stop_is_idempotent() {
    let mut tm = manager();
    add(&mut tm, "svc", false).unwrap();
    assert!(matches!(tm.stop_task("svc", false), Ok(StopPlan::AlreadyStopped)));
    assert!(matches!(tm.stop_task("svc", true), Ok(StopPlan::AlreadyStopped)));
    assert_eq!(task(&tm, "svc").pid, None);
    start(&mut tm, "svc", 99);
    assert!(matches!(tm.stop_task("svc", false), Ok(StopPlan::AlreadyTerminated(99))));
    let t = task(&tm, "svc");
    assert_eq!(t.status, TaskStatus::Stopped);
    assert_eq!(t.pid, None);
    assert!(matches!(tm.stop_task("svc", false), Ok(StopPlan::AlreadyStopped)));
    assert!(matches!(tm.stop_task("nope", false), Err(HyperVError::TaskNotFound(_))));
}

#[test]
fn stop_of_live_process_asks_for_termination() {
    let mut tm = manager();
    add(&mut tm, "svc", false).unwrap();
    start(&mut tm, "svc", 99);
    let id = task(&tm, "svc").id.clone();
    match tm.stop_task("svc", true) {
        Ok(StopPlan::Terminate { task_id, pid }) => {
            assert_eq!(task_id, id);
            assert_eq!(pid, 99);
        }
        _ => panic!("expected a termination"),
    }
    assert_eq!(task(&tm, "svc").status, TaskStatus::Running);
    assert!(tm.mark_stopped("svc"));
    assert_eq!(task(&tm, "svc").status, TaskStatus::Stopped);
    assert_eq!(task(&tm, "svc").pid, None);
}

#[test]
fn remove_stops_running_task_first() {
    let mut tm = manager();
    add(&mut tm, "xa", false).unwrap();
    add(&mut tm, "yb", false).unwrap();
    start(&mut tm, "xa", 5);
    assert!(matches!(tm.remove_task("xa"), Ok(Removal::MustStop)));
    assert_eq!(tm.task_count(), 2);
    tm.mark_stopped("xa");
    match tm.remove_task("xa") {
        Ok(Removal::Removed(t)) => assert_eq!(t.name, "xa"),
        _ => panic!("expected a removal"),
    }
    assert_eq!(tm.task_count(), 1);
    assert_eq!(tm.tasks()[0].name, "yb");
    assert!(matches!(tm.remove_task("xa"), Err(HyperVError::TaskNotFound(_))));
}

#[test]
fn reconciliation_paths_diverge() {
    let mut read_path = manager();
    add_with_id(&mut read_path, "id1", "job").unwrap();
    start(&mut read_path, "job", 77);
    let mut daemon_path = manager();
    add_with_id(&mut daemon_path, "id1", "job").unwrap();
    start(&mut daemon_path, "job", 77);

    assert!(read_path.refresh_task_statuses(&vec![1, 2]));
    let t = task(&read_path, "job");
    assert_eq!(t.status, TaskStatus::Stopped);
    assert_eq!(t.pid, None);
    assert_eq!(t.last_exit_code, None);

    assert!(daemon_path.cleanup(&vec![(s("id1"), 3)], &vec![1, 2]));
    let t = task(&daemon_path, "job");
    assert_eq!(t.status, TaskStatus::Failed);
    assert_eq!(t.pid, None);
    assert_eq!(t.last_exit_code, Some(3));
}

#[test]
fn live_process_is_left_alone() {
    let mut tm = manager();
    add(&mut tm, "job", false).unwrap();
    start(&mut tm, "job", 77);
    assert!(!tm.refresh_task_statuses(&vec![77]));
    assert!(!tm.cleanup(&Vec::new(), &vec![77]));
    assert_eq!(task(&tm, "job").status, TaskStatus::Running);
}

#[test]
fn restarts_stop_after_cap() {
    let mut tm = manager();
    add(&mut tm, "flaky", true).unwrap();
    add(&mut tm, "steady", false).unwrap();
    tm.prepare_start("flaky", &facts(false)).unwrap();
    tm.record_start("flaky", Err(HyperVError::ProcessStart(s("/bin/echo"), s("boom")))).unwrap_err();
    tm.prepare_start("steady", &facts(false)).unwrap();
    tm.record_start("steady", Err(HyperVError::ProcessStart(s("/bin/echo"), s("boom")))).unwrap_err();
    let mut attempts = 0;
    for _tick in 0..10 {
        for id in tm.restart_candidates() {
            if let Some(name) = tm.begin_restart(&id) {
                attempts += 1;
                tm.prepare_start(&name, &facts(false)).unwrap();
                tm.record_start(&name, Err(HyperVError::ProcessStart(s("/bin/echo"), s("boom")))).unwrap_err();
            }
        }
    }
    assert_eq!(attempts, 6);
    let t = task(&tm, "flaky");
    assert_eq!(t.restart_count, 6);
    assert_eq!(t.status, TaskStatus::Failed);
    assert!(tm.restart_candidates().is_empty());
    assert_eq!(task(&tm, "steady").restart_count, 0);
    assert_eq!(tm.begin_restart(&task(&tm, "flaky").id.clone()), None);
}

#[test]
fn restart_success_keeps_count() {
    let mut tm = manager();
    add(&mut tm, "flaky", true).unwrap();
    tm.prepare_start("flaky", &facts(false)).unwrap();
    tm.record_start("flaky", Err(HyperVError::ProcessStart(s("x"), s("y")))).unwrap_err();
    let ids = tm.restart_candidates();
    assert_eq!(ids.len(), 1);
    let name = tm.begin_restart(&ids[0]).unwrap();
    start(&mut tm, &name, 3);
    let t = task(&tm, "flaky");
    assert_eq!(t.status, TaskStatus::Running);
    assert_eq!(t.restart_count, 1);
    assert!(tm.mark_failed("flaky"));
    assert_eq!(task(&tm, "flaky").pid, None);
}

#[test]
fn counts_follow_statuses() {
    let mut tm = manager();
    add(&mut tm, "xa", true).unwrap();
    add(&mut tm, "yb", false).unwrap();
    add(&mut tm, "zc", true).unwrap();
    start(&mut tm, "yb", 1);
    assert_eq!(tm.task_count(), 3);
    assert_eq!(tm.running_task_count(), 1);
    assert_eq!(tm.tasks_with_autorestart_count(), 2);
}

#[test]
fn task_setters() {
    let mut t = Task::new(
        s("id9"),
        s("n"),
        s("/bin/true"),
        vec![s("-v")],
        vec![(s("K"), s("V"))],
        None,
        true,
        None,
        None,
    );
    assert_eq!(t.status, TaskStatus::Stopped);
    assert_eq!(t.args, vec![s("-v")]);
    t.set_status(TaskStatus::Running);
    t.set_pid(Some(12));
    assert_eq!((t.status, t.pid), (TaskStatus::Running, Some(12)));
    t.clear_pid();
    assert_eq!(t.pid, None);
    t.increment_restart_count();
    t.increment_restart_count();
    assert_eq!(t.restart_count, 2);
    t.set_exit_code(Some(-1));
    assert_eq!(t.last_exit_code, Some(-1));
    t.set_last_started();
    assert!(t.last_started.is_some());
    let pm: ProcessManager<u8> = ProcessManager::default();
    assert_eq!(pm.running_count(), 0);
}
