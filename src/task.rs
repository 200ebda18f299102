//! Tasks: the unit of supervision.
use vstd::prelude::*;
use crate::env::{EnvVars, env_view, keys_unique};

verus! {

/// Status of a task.
#[derive(Clone, Copy, Debug, PartialEq, Eq, Structural)]
pub enum TaskStatus {
    Stopped,
    Running,
    Failed,
}

/// The label of a status, with its icon.
pub open spec fn status_label(s: TaskStatus) -> Seq<char> {
    match s {
        TaskStatus::Stopped => "🔴 Stopped"@,
        TaskStatus::Running => "🟢 Running"@,
        TaskStatus::Failed => "🟡 Failed"@,
    }
}

impl TaskStatus {
    /// The status with its icon, for display.
    pub fn display_with_icon(&self) -> (r: &'static str)
        ensures
            r@ == status_label(*self),
    {
        match self {
            TaskStatus::Stopped => "🔴 Stopped",
            TaskStatus::Running => "🟢 Running",
            TaskStatus::Failed => "🟡 Failed",
        }
    }
}

/// Relies on chrono's `Utc::now` and `DateTime::to_rfc3339`: the current
/// time in UTC as RFC 3339 text. Nothing is stated of it: it is the clock.
#[verifier::external_body]
pub(crate) fn now_rfc3339() -> String {
    chrono::Utc::now().to_rfc3339()
}

/// Task configuration and state.
#[derive(Clone, Debug)]
pub struct Task {
    pub id: String,
    pub name: String,
    pub binary: String,
    pub args: Vec<String>,
    pub env: EnvVars,
    pub workdir: Option<String>,
    pub auto_restart: bool,
    pub status: TaskStatus,
    pub created_at: String,
    pub pid: Option<u32>,
    pub stdout_log_path: Option<String>,
    pub stderr_log_path: Option<String>,
    pub last_started: Option<String>,
    pub restart_count: u32,
    pub last_exit_code: Option<i32>,
}

impl Task {
    /// A well-formed task: variable names are unique, and a pid is recorded
    /// only while the task is believed to run.
    pub open spec fn wf(&self) -> bool {
        &&& keys_unique(env_view(self.env@))
        &&& (self.pid is Some ==> self.status == TaskStatus::Running)
    }

    /// A new stopped task with zero counters, created now.
    pub fn new(
        id: String,
        name: String,
        binary: String,
        args: Vec<String>,
        env: EnvVars,
        workdir: Option<String>,
        auto_restart: bool,
        stdout_log_path: Option<String>,
        stderr_log_path: Option<String>,
    ) -> (t: Task)
        ensures
            t.id == id,
            t.name == name,
            t.binary == binary,
            t.args == args,
            t.env == env,
            t.workdir == workdir,
            t.auto_restart == auto_restart,
            t.status == TaskStatus::Stopped,
            t.pid is None,
            t.stdout_log_path == stdout_log_path,
            t.stderr_log_path == stderr_log_path,
            t.last_started is None,
            t.restart_count == 0,
            t.last_exit_code is None,
    {
        Task {
            id,
            name,
            binary,
            args,
            env,
            workdir,
            auto_restart,
            status: TaskStatus::Stopped,
            created_at: now_rfc3339(),
            pid: None,
            stdout_log_path,
            stderr_log_path,
            last_started: None,
            restart_count: 0,
            last_exit_code: None,
        }
    }

    /// Sets the status.
    pub fn set_status(&mut self, status: TaskStatus)
        ensures
            *final(self) == (Task { status, ..*old(self) }),
    {
        self.status = status;
    }

    /// Sets the pid.
    pub fn set_pid(&mut self, pid: Option<u32>)
        ensures
            *final(self) == (Task { pid, ..*old(self) }),
    {
        self.pid = pid;
    }

    /// Clears the pid.
    pub fn clear_pid(&mut self)
        ensures
            *final(self) == (Task { pid: None, ..*old(self) }),
    {
        self.pid = None;
    }

    /// Sets the last start time to now.
    pub fn set_last_started(&mut self)
        ensures
            final(self).last_started is Some,
            *final(self) == (Task { last_started: final(self).last_started, ..*old(self) }),
    {
        self.last_started = Some(now_rfc3339());
    }

    /// Counts one more automatic restart attempt.
    pub fn increment_restart_count(&mut self)
        requires
            old(self).restart_count < u32::MAX,
        ensures
            *final(self) == (Task { restart_count: (old(self).restart_count + 1) as u32, ..*old(self) }),
    {
        self.restart_count = self.restart_count + 1;
    }

    /// Sets the last exit code.
    pub fn set_exit_code(&mut self, exit_code: Option<i32>)
        ensures
            *final(self) == (Task { last_exit_code: exit_code, ..*old(self) }),
    {
        self.last_exit_code = exit_code;
    }
}

} // verus!
