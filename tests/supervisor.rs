use hyperv::binary::{
    diagnose_binary, shebang_interpreter, validate_binary, BinaryFacts, BinaryFormat, Finding, ScriptNote,
};
use hyperv::process::{ProcessManager, WaitStatus};
use hyperv::stop::{Pause, Signal, SignalTarget, StopAction, StopEvent, StopPhase, StopProcedure};
use hyperv::HyperVError;

fn facts(exists: bool, mode: u32, head: &[u8], interpreter_exists: bool) -> BinaryFacts {
    BinaryFacts { exists, is_dir: false, mode, head: head.to_vec(), interpreter_exists }
}

fn is_probe(a: &StopAction) -> bool {
    matches!(a, StopAction::Probe)
}

fn is_send(a: &StopAction, s: Signal, t: SignalTarget) -> bool {
    matches!(a, StopAction::Send(x, y) if *x == s && *y == t)
}

fn is_wait(a: &StopAction, p: Pause) -> bool {
    matches!(a, StopAction::Wait(x) if *x == p)
}

#[test]
fn stop_of_dead_process_succeeds_at_once() {
    let (mut sp, first) = StopProcedure::new(42);
    assert!(is_probe(&first));
    let a = sp.step(StopEvent::Alive(false));
    assert!(matches!(a, StopAction::Finish(Ok(()))));
    let a = sp.step(StopEvent::Waited);
    assert!(matches!(a, StopAction::Finish(Ok(()))));
    assert_eq!(sp.phase, StopPhase::Stopped);
}

#[test]
fn kill_comes_only_after_grace_period() {
    let (mut sp, _) = StopProcedure::new(42);
    let a = sp.step(StopEvent::Alive(true));
    assert!(is_send(&a, Signal::Terminate, SignalTarget::Group));
    let a = sp.step(StopEvent::Sent(Ok(())));
    assert!(is_wait(&a, Pause::Grace));
    // An answer that does not fit repeats the wait: no kill yet.
    let a = sp.step(StopEvent::Alive(true));
    assert!(is_wait(&a, Pause::Grace));
    let a = sp.step(StopEvent::Waited);
    assert!(is_probe(&a));
    let a = sp.step(StopEvent::Alive(true));
    assert!(is_send(&a, Signal::Kill, SignalTarget::Group));
    let a = sp.step(StopEvent::Sent(Err("Operation not permitted".to_string())));
    assert!(is_send(&a, Signal::Kill, SignalTarget::Process));
    let a = sp.step(StopEvent::Sent(Ok(())));
    assert!(is_wait(&a, Pause::Settle));
    let a = sp.step(StopEvent::Waited);
    assert!(matches!(a, StopAction::Finish(Ok(()))));
}

#[test]
fn process_ending_during_grace_needs_no_kill() {
    let (mut sp, _) = StopProcedure::new(7);
    sp.step(StopEvent::Alive(true));
    sp.step(StopEvent::Sent(Ok(())));
    sp.step(StopEvent::Waited);
    let a = sp.step(StopEvent::Alive(false));
    assert!(matches!(a, StopAction::Finish(Ok(()))));
}

#[test]
fn undeliverable_term_fails_with_errno() {
    let (mut sp, _) = StopProcedure::new(42);
    sp.step(StopEvent::Alive(true));
    let a = sp.step(StopEvent::Sent(Err("No such process".to_string())));
    assert!(is_send(&a, Signal::Terminate, SignalTarget::Process));
    let a = sp.step(StopEvent::Sent(Err("Operation not permitted".to_string())));
    assert!(is_probe(&a));
    let a = sp.step(StopEvent::Alive(true));
    match a {
        StopAction::Finish(Err(HyperVError::ProcessStop(m))) => {
            assert_eq!(m, "Failed to send SIGTERM to process 42 (errno: Operation not permitted)")
        }
        _ => panic!("expected a failure"),
    }
}

#[test]
fn undeliverable_term_to_dead_process_succeeds() {
    let (mut sp, _) = StopProcedure::new(42);
    sp.step(StopEvent::Alive(true));
    sp.step(StopEvent::Sent(Err("x".to_string())));
    sp.step(StopEvent::Sent(Err("y".to_string())));
    let a = sp.step(StopEvent::Alive(false));
    assert!(matches!(a, StopAction::Finish(Ok(()))));
}

#[test]
fn undeliverable_kill_fails_with_errno() {
    let (mut sp, _) = StopProcedure::new(1234);
    sp.step(StopEvent::Alive(true));
    sp.step(StopEvent::Sent(Ok(())));
    sp.step(StopEvent::Waited);
    sp.step(StopEvent::Alive(true));
    sp.step(StopEvent::Sent(Err("a".to_string())));
    sp.step(StopEvent::Sent(Err("Operation not permitted".to_string())));
    let a = sp.step(StopEvent::Alive(true));
    match a {
        StopAction::Finish(Err(HyperVError::ProcessStop(m))) => {
            assert_eq!(m, "Failed to kill process 1234 (errno: Operation not permitted)")
        }
        _ => panic!("expected a failure"),
    }
}

#[test]
fn table_tracks_and_reaps() {
    let mut pm: ProcessManager<&str> = ProcessManager::new();
    assert_eq!(pm.track("a".to_string(), "ha"), None);
    assert_eq!(pm.track("b".to_string(), "hb"), None);
    assert_eq!(pm.track("c".to_string(), "hc"), None);
    assert_eq!(pm.track("d".to_string(), "hd"), None);
    assert_eq!(pm.track("a".to_string(), "ha2"), Some("ha"));
    assert_eq!(pm.running_count(), 4);
    assert_eq!(*pm.handle_mut(0), "ha2");
    let codes = pm.cleanup_zombies(&vec![
        WaitStatus::Running,
        WaitStatus::Exited(Some(3)),
        WaitStatus::Exited(None),
    ]);
    assert_eq!(codes, vec![("b".to_string(), 3)]);
    assert_eq!(pm.running_count(), 2);
    assert!(pm.is_task_running("a"));
    assert!(!pm.is_task_running("b"));
    assert!(!pm.is_task_running("c"));
    assert!(pm.is_task_running("d"));
    let codes = pm.cleanup_zombies(&vec![WaitStatus::Unknown, WaitStatus::Running]);
    assert!(codes.is_empty());
    assert!(!pm.is_task_running("a"));
    assert_eq!(pm.untrack("d"), Some("hd"));
    assert_eq!(pm.untrack("d"), None);
    assert_eq!(pm.running_count(), 0);
}

#[test]
fn non_executable_binary_is_refused_without_handle() {
    let pm: ProcessManager<u32> = ProcessManager::new();
    let r = validate_binary("/tmp/plain.txt", &facts(true, 0o644, b"hello\n", false));
    assert!(matches!(r, Err(HyperVError::BinaryNotExecutable(ref p)) if p == "/tmp/plain.txt"));
    assert_eq!(pm.running_count(), 0);
}

#[test]
fn binary_checks() {
    let r = validate_binary("/nope", &facts(false, 0o755, b"", false));
    assert!(matches!(r, Err(HyperVError::BinaryNotFound(ref p)) if p == "/nope"));
    let r = validate_binary("/s.sh", &facts(true, 0o755, b"#!/no/such/interp -x\necho\n", false));
    assert!(matches!(r, Err(HyperVError::InterpreterNotFound(ref p)) if p == "/no/such/interp"));
    let r = validate_binary("/s.sh", &facts(true, 0o755, b"#!/bin/sh\necho\n", true));
    assert!(matches!(r, Ok(ScriptNote::Ready)));
    let r = validate_binary("/s.sh", &facts(true, 0o700, b"echo hi\n", false));
    assert!(matches!(r, Ok(ScriptNote::TextWithoutShebang)));
    let r = validate_binary("/bin/x", &facts(true, 0o100, b"\x7fELF\x02\x01\x00", false));
    assert!(matches!(r, Ok(ScriptNote::Ready)));
}

#[test]
fn shebang_is_read_from_first_line() {
    assert_eq!(shebang_interpreter(&b"#!/usr/bin/env python3\nx".to_vec()), Some(b"/usr/bin/env".to_vec()));
    assert_eq!(shebang_interpreter(&b"#!  \t/bin/sh -e\r\n".to_vec()), Some(b"/bin/sh".to_vec()));
    assert_eq!(shebang_interpreter(&b"#!\n/bin/sh".to_vec()), None);
    assert_eq!(shebang_interpreter(&b"#!".to_vec()), None);
    assert_eq!(shebang_interpreter(&b"echo".to_vec()), None);
}

#[test]
fn diagnose_elf_binary() {
    let (findings, r) = diagnose_binary("/bin/x", &facts(true, 0o100755, b"\x7fELF\x02\x01\x01\x00", false));
    assert!(r.is_ok());
    assert_eq!(findings.len(), 7);
    assert!(matches!(findings[2], Finding::Permissions(0o755)));
    assert!(matches!(findings[5], Finding::Format(BinaryFormat::Elf)));
    assert!(matches!(findings[6], Finding::Complete));
}

#[test]
fn diagnose_failures() {
    let (f, r) = diagnose_binary("/x", &facts(false, 0, b"", false));
    assert!(matches!(f[..], [Finding::Missing]));
    assert!(matches!(r, Err(HyperVError::BinaryNotFound(_))));
    let d = BinaryFacts { exists: true, is_dir: true, mode: 0o755, head: Vec::new(), interpreter_exists: false };
    let (_, r) = diagnose_binary("/x", &d);
    assert!(matches!(r, Err(HyperVError::InvalidBinary(ref m)) if m == "Path is a directory"));
    let (_, r) = diagnose_binary("/x", &facts(true, 0o755, b"", false));
    assert!(matches!(r, Err(HyperVError::InvalidBinary(ref m)) if m == "File is empty"));
    let (f, r) = diagnose_binary("/x", &facts(true, 0o644, b"MZ", false));
    assert!(matches!(f.last(), Some(Finding::NotExecutable)));
    assert!(matches!(r, Err(HyperVError::BinaryNotExecutable(_))));
}

#[test]
fn diagnose_script() {
    let (f, r) = diagnose_binary("/s", &facts(true, 0o755, b"#!/bin/bash  \necho hi\n", true));
    assert!(r.is_ok());
    assert!(matches!(f[5], Finding::Shebang(ref l) if l == "#!/bin/bash"));
    assert!(matches!(f[6], Finding::InterpreterFound(ref i) if i == "/bin/bash"));
    let (f, r) = diagnose_binary("/s", &facts(true, 0o755, b"#!/opt/py\n", false));
    assert!(matches!(f.last(), Some(Finding::InterpreterMissing(ref i)) if i == "/opt/py"));
    assert!(matches!(r, Err(HyperVError::InterpreterNotFound(ref i)) if i == "/opt/py"));
    let (f, r) = diagnose_binary("/s", &facts(true, 0o755, b"echo hi\n", false));
    assert!(r.is_ok());
    assert!(matches!(f[5], Finding::NoShebang));
}
