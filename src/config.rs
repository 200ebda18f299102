//! Locations of the registry file and of the log files.
use vstd::prelude::*;
use crate::error::{ErrorView, HyperVError};

verus! {

/// `name` appended to the directory path `base`, with one `/` between them.
pub open spec fn path_join(base: Seq<char>, name: Seq<char>) -> Seq<char> {
    if base.len() == 0 || base.last() == '/' {
        base + name
    } else {
        base + seq!['/'] + name
    }
}

/// The path `name` under the directory `base`.
pub fn join_path(base: &str, name: &str) -> (r: String)
    ensures
        r@ == path_join(base@, name@),
{
    let n = base.unicode_len();
    let mut r = String::from_str(base);
    if n > 0 && base.get_char(n - 1) != '/' {
        r.append("/");
        proof { reveal_strlit("/"); }
    }
    r.append(name);
    r
}

/// Relies on dirs' `config_dir`: the user's configuration directory, when
/// the platform has one. It depends on the environment: nothing is stated.
#[verifier::external_body]
fn user_config_dir() -> Option<String> {
    dirs::config_dir().map(|p| p.to_string_lossy().into_owned())
}

/// Configuration paths of the service manager.
#[derive(Debug)]
pub struct Config {
    /// Base configuration directory
    pub config_dir: String,
    /// Path to tasks configuration file
    pub tasks_file: String,
    /// Directory for log files
    pub logs_dir: String,
}

impl Config {
    /// The paths under the configuration directory `config_dir`.
    pub fn in_dir(config_dir: String) -> (c: Config)
        ensures
            c.config_dir@ == config_dir@,
            c.tasks_file@ == path_join(config_dir@, "tasks.json"@),
            c.logs_dir@ == path_join(config_dir@, "logs"@),
    {
        let tasks_file = join_path(config_dir.as_str(), "tasks.json");
        let logs_dir = join_path(config_dir.as_str(), "logs");
        Config { config_dir, tasks_file, logs_dir }
    }

    /// The paths under `hyperV` in the configuration directory `home`.
    pub fn under_config_home(home: &str) -> (c: Config)
        ensures
            c.config_dir@ == path_join(home@, "hyperV"@),
            c.tasks_file@ == path_join(c.config_dir@, "tasks.json"@),
            c.logs_dir@ == path_join(c.config_dir@, "logs"@),
    {
        Config::in_dir(join_path(home, "hyperV"))
    }

    /// The paths under the user's configuration directory; fails when the
    /// platform has none.
    pub fn locate() -> (r: Result<Config, HyperVError>)
        ensures
            match r {
                Ok(c) => c.tasks_file@ == path_join(c.config_dir@, "tasks.json"@)
                    && c.logs_dir@ == path_join(c.config_dir@, "logs"@),
                Err(e) => e@ == ErrorView::Config("Could not find config directory"@),
            },
    {
        match user_config_dir() {
            Some(home) => Ok(Config::under_config_home(home.as_str())),
            None => Err(HyperVError::Config(String::from_str("Could not find config directory"))),
        }
    }

    /// Log directory of a task.
    pub fn task_log_dir(&self, task_id: &str) -> (r: String)
        ensures
            r@ == path_join(self.logs_dir@, task_id@),
    {
        join_path(self.logs_dir.as_str(), task_id)
    }

    /// Standard output log of a task.
    pub fn stdout_log_path(&self, task_id: &str) -> (r: String)
        ensures
            r@ == path_join(path_join(self.logs_dir@, task_id@), "stdout.log"@),
    {
        let dir = self.task_log_dir(task_id);
        join_path(dir.as_str(), "stdout.log")
    }

    /// Standard error log of a task.
    pub fn stderr_log_path(&self, task_id: &str) -> (r: String)
        ensures
            r@ == path_join(path_join(self.logs_dir@, task_id@), "stderr.log"@),
    {
        let dir = self.task_log_dir(task_id);
        join_path(dir.as_str(), "stderr.log")
    }
}

} // verus!
