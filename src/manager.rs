//! The task registry: the ordered set of tasks, their lookup, and every
//! change of their state.
use vstd::prelude::*;
use crate::config::{Config, path_join};
use crate::constants::MAX_RESTART_ATTEMPTS;
use crate::env::{EnvVars, env_view, env_from_args, merge_dotenv};
use crate::error::{ErrorView, HyperVError};
use crate::task::{Task, TaskStatus};
use crate::text::{is_prefix, starts_with, text_eq};

verus! {

/// `t` is the task that `ident` designates: by name, by id, or by a prefix
/// of its id.
pub open spec fn designates(t: Task, ident: Seq<char>) -> bool {
    t.name@ == ident || t.id@ == ident || is_prefix(ident, t.id@)
}

/// Index `i` holds the earliest task that `ident` designates.
pub open spec fn first_match(ts: Seq<Task>, ident: Seq<char>, i: int) -> bool {
    &&& 0 <= i < ts.len()
    &&& designates(ts[i], ident)
    &&& forall|j: int| 0 <= j < i ==> !designates(ts[j], ident)
}

/// Some task is designated by `ident`.
pub open spec fn any_match(ts: Seq<Task>, ident: Seq<char>) -> bool {
    exists|i: int| 0 <= i < ts.len() && designates(ts[i], ident)
}

/// Ids and names are unique, and every task is well formed.
pub open spec fn registry_wf(ts: Seq<Task>) -> bool {
    &&& forall|i: int, j: int| 0 <= i < j < ts.len() ==> ts[i].id@ != ts[j].id@ && ts[i].name@ != ts[j].name@
    &&& forall|i: int| 0 <= i < ts.len() ==> (#[trigger] ts[i]).wf()
}

/// Some task has the name `name`.
pub open spec fn name_taken(ts: Seq<Task>, name: Seq<char>) -> bool {
    exists|i: int| 0 <= i < ts.len() && ts[i].name@ == name
}

/// Some task has the id `id`.
pub open spec fn id_taken(ts: Seq<Task>, id: Seq<char>) -> bool {
    exists|i: int| 0 <= i < ts.len() && ts[i].id@ == id
}

/// The number of tasks that satisfy `f`.
pub open spec fn count_where(ts: Seq<Task>, f: spec_fn(Task) -> bool) -> nat
    decreases ts.len(),
{
    if ts.len() == 0 {
        0
    } else {
        count_where(ts.drop_last(), f) + if f(ts.last()) { 1nat } else { 0nat }
    }
}

proof fn lemma_count_le(ts: Seq<Task>, f: spec_fn(Task) -> bool)
    ensures
        count_where(ts, f) <= ts.len(),
    decreases ts.len(),
{
    if ts.len() > 0 {
        lemma_count_le(ts.drop_last(), f);
    }
}

/// Main task manager: the registry of tasks and the paths they use.
pub struct TaskManager {
    tasks: Vec<Task>,
    config: Config,
}

impl TaskManager {
    /// The tasks, in the order they were created.
    pub closed spec fn tasks_seq(&self) -> Seq<Task> {
        self.tasks@
    }

    /// The paths of the manager.
    pub closed spec fn config_of(&self) -> Config {
        self.config
    }

    /// The registry holds its invariants.
    pub open spec fn wf(&self) -> bool {
        registry_wf(self.tasks_seq())
    }

    /// Whether a loaded list of tasks holds the registry's invariants.
    pub fn is_valid_registry(tasks: &Vec<Task>) -> (r: bool)
        ensures
            r == registry_wf(tasks@),
    {
        let n = tasks.len();
        let mut i: usize = 0;
        while i < n
            invariant
                n == tasks@.len(),
                i <= n,
                forall|a: int, b: int| 0 <= a < b < n && a < i ==> tasks@[a].id@ != tasks@[b].id@ && tasks@[a].name@ != tasks@[b].name@,
                forall|a: int| 0 <= a < i ==> (#[trigger] tasks@[a]).wf(),
            decreases n - i,
        {
            if !Self::task_wf(&tasks[i]) {
                return false;
            }
            let mut j: usize = i + 1;
            while j < n
                invariant
                    n == tasks@.len(),
                    i < n,
                    i < j <= n,
                    forall|b: int| i < b < j ==> tasks@[i as int].id@ != tasks@[b].id@ && tasks@[i as int].name@ != tasks@[b].name@,
                decreases n - j,
            {
                if text_eq(tasks[i].id.as_str(), tasks[j].id.as_str()) || text_eq(tasks[i].name.as_str(), tasks[j].name.as_str()) {
                    return false;
                }
                j = j + 1;
            }
            i = i + 1;
        }
        true
    }

    fn task_wf(t: &Task) -> (r: bool)
        ensures
            r == t.wf(),
    {
        if t.pid.is_some() && t.status != TaskStatus::Running {
            return false;
        }
        let n = t.env.len();
        let ghost e = env_view(t.env@);
        let mut i: usize = 0;
        while i < n
            invariant
                n == t.env@.len(),
                e == env_view(t.env@),
                i <= n,
                forall|a: int, b: int| 0 <= a < b < n && a < i ==> e[a].0 != e[b].0,
            decreases n - i,
        {
            let mut j: usize = i + 1;
            while j < n
                invariant
                    n == t.env@.len(),
                    e == env_view(t.env@),
                    i < j <= n,
                    forall|b: int| i < b < j ==> e[i as int].0 != e[b].0,
                decreases n - j,
            {
                if t.env[i].0 == t.env[j].0 {
                    assert(e[i as int].0 == e[j as int].0);
                    return false;
                }
                j = j + 1;
            }
            i = i + 1;
        }
        true
    }

    /// A manager over loaded tasks. A list that breaks the registry's
    /// invariants counts as malformed and gives an empty registry.
    pub fn with_tasks(tasks: Vec<Task>, config: Config) -> (r: TaskManager)
        ensures
            r.wf(),
            r.config_of() == config,
            registry_wf(tasks@) ==> r.tasks_seq() == tasks@,
            !registry_wf(tasks@) ==> r.tasks_seq() == Seq::<Task>::empty(),
    {
        if Self::is_valid_registry(&tasks) {
            TaskManager { tasks, config }
        } else {
            let r = TaskManager { tasks: Vec::new(), config };
            assert(r.tasks_seq() =~= Seq::<Task>::empty());
            r
        }
    }

    /// The tasks, in the order they were created.
    pub fn tasks(&self) -> (r: &Vec<Task>)
        ensures
            r@ == self.tasks_seq(),
    {
        &self.tasks
    }

    /// The paths of the manager.
    pub fn config(&self) -> (r: &Config)
        ensures
            *r == self.config_of(),
    {
        &self.config
    }

    /// The index of the earliest task that `identifier` designates by name,
    /// id or id prefix; insertion order settles every tie.
    pub fn find_task_index(&self, identifier: &str) -> (r: Option<usize>)
        ensures
            match r {
                None => !any_match(self.tasks_seq(), identifier@),
                Some(i) => first_match(self.tasks_seq(), identifier@, i as int),
            },
    {
        let mut i: usize = 0;
        while i < self.tasks.len()
            invariant
                i <= self.tasks@.len(),
                forall|j: int| 0 <= j < i ==> !designates(self.tasks@[j], identifier@),
            decreases self.tasks@.len() - i,
        {
            let t = &self.tasks[i];
            if text_eq(t.name.as_str(), identifier) || text_eq(t.id.as_str(), identifier)
                || starts_with(t.id.as_str(), identifier) {
                return Some(i);
            }
            i = i + 1;
        }
        None
    }

    /// The earliest task that `identifier` designates by name, id or id
    /// prefix.
    pub fn find_task(&self, identifier: &str) -> (r: Option<&Task>)
        ensures
            match r {
                None => !any_match(self.tasks_seq(), identifier@),
                Some(t) => exists|i: int| first_match(self.tasks_seq(), identifier@, i) && *t == self.tasks_seq()[i],
            },
    {
        match self.find_task_index(identifier) {
            Some(i) => Some(&self.tasks[i]),
            None => None,
        }
    }

    fn count_by(&self, which: u8) -> (r: usize)
        requires
            which <= 2,
        ensures
            which == 0 ==> r == self.tasks_seq().len(),
            which == 1 ==> r == count_where(self.tasks_seq(), |t: Task| t.status == TaskStatus::Running),
            which == 2 ==> r == count_where(self.tasks_seq(), |t: Task| t.auto_restart),
    {
        let ghost f: spec_fn(Task) -> bool = if which == 1 {
            |t: Task| t.status == TaskStatus::Running
        } else {
            |t: Task| t.auto_restart
        };
        if which == 0 {
            return self.tasks.len();
        }
        let mut c: usize = 0;
        let mut i: usize = 0;
        while i < self.tasks.len()
            invariant
                i <= self.tasks@.len(),
                which == 1 || which == 2,
                f == (if which == 1 { |t: Task| t.status == TaskStatus::Running } else { |t: Task| t.auto_restart }),
                c == count_where(self.tasks@.subrange(0, i as int), f),
            decreases self.tasks@.len() - i,
        {
            proof {
                let s = self.tasks@.subrange(0, i as int + 1);
                assert(s.drop_last() =~= self.tasks@.subrange(0, i as int));
                lemma_count_le(self.tasks@.subrange(0, i as int), f);
            }
            let t = &self.tasks[i];
            let hit = if which == 1 { t.status == TaskStatus::Running } else { t.auto_restart };
            if hit {
                c = c + 1;
            }
            i = i + 1;
        }
        assert(self.tasks@.subrange(0, self.tasks@.len() as int) =~= self.tasks@);
        c
    }

    /// The number of tasks.
    pub fn task_count(&self) -> (r: usize)
        ensures
            r == self.tasks_seq().len(),
    {
        self.count_by(0)
    }

    /// The number of tasks whose status is `Running`.
    pub fn running_task_count(&self) -> (r: usize)
        ensures
            r == count_where(self.tasks_seq(), |t: Task| t.status == TaskStatus::Running),
    {
        self.count_by(1)
    }

    /// The number of tasks with auto-restart enabled.
    pub fn tasks_with_autorestart_count(&self) -> (r: usize)
        ensures
            r == count_where(self.tasks_seq(), |t: Task| t.auto_restart),
    {
        self.count_by(2)
    }
}

/// How many ids are drawn at most for a new task before giving up on
/// finding one that no task has.
pub const ID_ATTEMPTS: u32 = 4;

/// Relies on uuid's `Uuid::new_v4` and its `Display`: a random version-4
/// UUID in hyphenated form, 36 characters. Nothing else is stated of it.
#[verifier::external_body]
fn new_task_id() -> (r: String)
    ensures
        r@.len() == 36,
{
    uuid::Uuid::new_v4().to_string()
}

/// The arguments as characters.
pub open spec fn texts(v: Seq<String>) -> Seq<Seq<char>> {
    v.map_values(|s: String| s@)
}

/// `i` is the first `KEY=VALUE` argument without `=`.
pub open spec fn first_invalid(vars: Seq<Seq<char>>, i: int) -> bool {
    &&& 0 <= i < vars.len()
    &&& crate::env::split_assignment(vars[i]) is None
    &&& forall|j: int| 0 <= j < i ==> crate::env::split_assignment(vars[j]) is Some
}

/// The environment of a new task: its arguments, then the `.env` text.
pub open spec fn new_task_env(vars: Seq<Seq<char>>, dotenv: Option<Seq<char>>) -> Option<Seq<(Seq<char>, Seq<char>)>> {
    match env_from_args(vars) {
        None => None,
        Some(e) => Some(match dotenv {
            Some(d) => merge_dotenv(e, d),
            None => e,
        }),
    }
}

/// The text of an optional string.
pub open spec fn opt_text(o: Option<String>) -> Option<Seq<char>> {
    match o {
        Some(s) => Some(s@),
        None => None,
    }
}

/// `t` is the new task with these settings, its logs under `cfg`.
pub open spec fn is_new_task(
    t: Task,
    id: Seq<char>,
    name: Seq<char>,
    binary: Seq<char>,
    args: Seq<Seq<char>>,
    env: Seq<(Seq<char>, Seq<char>)>,
    workdir: Option<Seq<char>>,
    auto_restart: bool,
    cfg: Config,
) -> bool {
    &&& t.id@ == id
    &&& t.name@ == name
    &&& t.binary@ == binary
    &&& texts(t.args@) == args
    &&& env_view(t.env@) == env
    &&& opt_text(t.workdir) == workdir
    &&& t.auto_restart == auto_restart
    &&& t.status == TaskStatus::Stopped
    &&& t.pid is None
    &&& opt_text(t.stdout_log_path) == Some(path_join(path_join(cfg.logs_dir@, id), "stdout.log"@))
    &&& opt_text(t.stderr_log_path) == Some(path_join(path_join(cfg.logs_dir@, id), "stderr.log"@))
    &&& t.last_started is None
    &&& t.restart_count == 0
    &&& t.last_exit_code is None
}

impl TaskManager {
    fn name_in_use(&self, name: &str) -> (r: bool)
        ensures
            r == name_taken(self.tasks_seq(), name@),
    {
        let mut i: usize = 0;
        while i < self.tasks.len()
            invariant
                i <= self.tasks@.len(),
                forall|j: int| 0 <= j < i ==> self.tasks@[j].name@ != name@,
            decreases self.tasks@.len() - i,
        {
            if text_eq(self.tasks[i].name.as_str(), name) {
                return true;
            }
            i = i + 1;
        }
        false
    }

    fn id_in_use(&self, id: &str) -> (r: bool)
        ensures
            r == id_taken(self.tasks_seq(), id@),
    {
        let mut i: usize = 0;
        while i < self.tasks.len()
            invariant
                i <= self.tasks@.len(),
                forall|j: int| 0 <= j < i ==> self.tasks@[j].id@ != id@,
            decreases self.tasks@.len() - i,
        {
            if text_eq(self.tasks[i].id.as_str(), id) {
                return true;
            }
            i = i + 1;
        }
        false
    }

    /// Creates a task with the id `id`. Fails with `TaskExists(name)` when a
    /// task has the name, with `InvalidEnvVar` on the first argument without
    /// `=`, and with `TaskExists(id)` when a task has the id; the registry is
    /// then unchanged. Otherwise the new stopped task is appended, its
    /// environment being the arguments' variables (a later one overriding
    /// an earlier one) with those of the `.env` text added where unbound.
    pub fn create_task_with_id(
        &mut self,
        id: String,
        name: String,
        binary: String,
        args: Vec<String>,
        env_vars: Vec<String>,
        workdir: Option<String>,
        auto_restart: bool,
        dotenv: Option<String>,
    ) -> (r: Result<(), HyperVError>)
        requires
            old(self).wf(),
        ensures
            final(self).wf(),
            final(self).config_of() == old(self).config_of(),
            name_taken(old(self).tasks_seq(), name@) ==> r is Err
                && r->Err_0@ == ErrorView::TaskExists(name@)
                && final(self).tasks_seq() == old(self).tasks_seq(),
            !name_taken(old(self).tasks_seq(), name@) && env_from_args(texts(env_vars@)) is None ==> r is Err
                && (exists|i: int| first_invalid(texts(env_vars@), i)
                    && r->Err_0@ == ErrorView::InvalidEnvVar(env_vars@[i]@))
                && final(self).tasks_seq() == old(self).tasks_seq(),
            !name_taken(old(self).tasks_seq(), name@) && env_from_args(texts(env_vars@)) is Some
                && id_taken(old(self).tasks_seq(), id@) ==> r is Err
                && r->Err_0@ == ErrorView::TaskExists(id@)
                && final(self).tasks_seq() == old(self).tasks_seq(),
            !name_taken(old(self).tasks_seq(), name@) && env_from_args(texts(env_vars@)) is Some
                && !id_taken(old(self).tasks_seq(), id@) ==> r is Ok
                && final(self).tasks_seq().len() == old(self).tasks_seq().len() + 1
                && final(self).tasks_seq().drop_last() == old(self).tasks_seq()
                && is_new_task(final(self).tasks_seq().last(), id@, name@, binary@, texts(args@),
                    new_task_env(texts(env_vars@), opt_text(dotenv))->Some_0, opt_text(workdir),
                    auto_restart, old(self).config_of()),
    {
        if self.name_in_use(name.as_str()) {
            return Err(HyperVError::TaskExists(name));
        }
        let mut env = match crate::env::parse_env_args(&env_vars) {
            Ok(e) => e,
            Err(e) => {
                assert(env_vars@.map_values(|s: String| s@) == texts(env_vars@));
                proof {
                    let i = choose|i: int| 0 <= i < env_vars@.len()
                        && crate::env::split_assignment(env_vars@[i]@) is None
                        && (forall|j: int| 0 <= j < i ==> crate::env::split_assignment(env_vars@[j]@) is Some)
                        && e@ == ErrorView::InvalidEnvVar(env_vars@[i]@);
                    assert forall|j: int| 0 <= j < i implies crate::env::split_assignment(texts(env_vars@)[j]) is Some by {
                        assert(texts(env_vars@)[j] == env_vars@[j]@);
                    }
                    assert(first_invalid(texts(env_vars@), i));
                }
                return Err(e);
            }
        };
        assert(env_vars@.map_values(|s: String| s@) == texts(env_vars@));
        match &dotenv {
            Some(text) => crate::env::merge_dotenv_exec(&mut env, text.as_str()),
            None => {}
        }
        if self.id_in_use(id.as_str()) {
            return Err(HyperVError::TaskExists(id));
        }
        let stdout_log_path = self.config.stdout_log_path(id.as_str());
        let stderr_log_path = self.config.stderr_log_path(id.as_str());
        let ghost old_tasks = self.tasks@;
        let task = Task::new(id, name, binary, args, env, workdir, auto_restart, Some(stdout_log_path), Some(stderr_log_path));
        self.tasks.push(task);
        assert(self.tasks@.drop_last() =~= old_tasks);
        assert forall|i: int, j: int| 0 <= i < j < self.tasks@.len() implies
            self.tasks@[i].id@ != self.tasks@[j].id@ && self.tasks@[i].name@ != self.tasks@[j].name@ by {
            if j == old_tasks.len() {
                assert(self.tasks@[i] == old_tasks[i]);
            }
        }
        assert forall|i: int| 0 <= i < self.tasks@.len() implies (#[trigger] self.tasks@[i]).wf() by {
            if i < old_tasks.len() {
                assert(self.tasks@[i] == old_tasks[i]);
            }
        }
        Ok(())
    }

    /// Creates a task under a freshly drawn random id, as
    /// `create_task_with_id` does. Should every draw hit an id in use, the
    /// registry is left unchanged and the error names that id.
    pub fn create_task(
        &mut self,
        name: String,
        binary: String,
        args: Vec<String>,
        env_vars: Vec<String>,
        workdir: Option<String>,
        auto_restart: bool,
        dotenv: Option<String>,
    ) -> (r: Result<(), HyperVError>)
        requires
            old(self).wf(),
        ensures
            final(self).wf(),
            final(self).config_of() == old(self).config_of(),
            name_taken(old(self).tasks_seq(), name@) ==> r is Err
                && r->Err_0@ == ErrorView::TaskExists(name@)
                && final(self).tasks_seq() == old(self).tasks_seq(),
            !name_taken(old(self).tasks_seq(), name@) && env_from_args(texts(env_vars@)) is None ==> r is Err
                && (exists|i: int| first_invalid(texts(env_vars@), i)
                    && r->Err_0@ == ErrorView::InvalidEnvVar(env_vars@[i]@))
                && final(self).tasks_seq() == old(self).tasks_seq(),
            !name_taken(old(self).tasks_seq(), name@) && env_from_args(texts(env_vars@)) is Some ==> match r {
                Ok(_) => final(self).tasks_seq().len() == old(self).tasks_seq().len() + 1
                    && final(self).tasks_seq().drop_last() == old(self).tasks_seq()
                    && !id_taken(old(self).tasks_seq(), final(self).tasks_seq().last().id@)
                    && is_new_task(final(self).tasks_seq().last(), final(self).tasks_seq().last().id@, name@,
                        binary@, texts(args@), new_task_env(texts(env_vars@), opt_text(dotenv))->Some_0,
                        opt_text(workdir), auto_restart, old(self).config_of()),
                Err(e) => (e@ matches ErrorView::TaskExists(id) && id_taken(old(self).tasks_seq(), id))
                    && final(self).tasks_seq() == old(self).tasks_seq(),
            },
    {
        let mut id = new_task_id();
        let mut attempts: u32 = 1;
        while attempts < ID_ATTEMPTS && self.id_in_use(id.as_str())
            invariant
                1 <= attempts <= ID_ATTEMPTS,
            decreases ID_ATTEMPTS - attempts,
        {
            id = new_task_id();
            attempts = attempts + 1;
        }
        self.create_task_with_id(id, name, binary, args, env_vars, workdir, auto_restart, dotenv)
    }
}

/// What a start needs to know of the outside world: whether the pid the
/// task records is alive, whether its working directory exists, and the
/// text of the `.env` file there, when it could be read.
#[derive(Debug)]
pub struct StartFacts {
    pub alive: bool,
    pub workdir_exists: bool,
    pub dotenv: Option<String>,
}

/// Everything needed to launch a task's process.
#[derive(Debug)]
pub struct LaunchSpec {
    pub task_id: String,
    pub name: String,
    pub binary: String,
    pub args: Vec<String>,
    pub env: EnvVars,
    pub workdir: Option<String>,
    pub stdout_log: String,
    pub stderr_log: String,
}

/// The task with a new status and pid.
pub open spec fn with_state(t: Task, status: TaskStatus, pid: Option<u32>) -> Task {
    Task { status, pid, ..t }
}

/// A start finds the task believed running but its process gone: it is
/// marked failed first.
pub open spec fn start_reset(t: Task) -> Task {
    if t.status == TaskStatus::Running && t.pid is Some {
        with_state(t, TaskStatus::Failed, None)
    } else {
        t
    }
}

/// The launch of task `t`: its settings, its environment with the `.env`
/// text merged in when it has a working directory, and its log paths.
pub open spec fn is_launch_of(l: LaunchSpec, t: Task, dotenv: Option<Seq<char>>, cfg: Config) -> bool {
    &&& l.task_id@ == t.id@
    &&& l.name@ == t.name@
    &&& l.binary@ == t.binary@
    &&& texts(l.args@) == texts(t.args@)
    &&& env_view(l.env@) == if t.workdir is Some && dotenv is Some {
        merge_dotenv(env_view(t.env@), dotenv->Some_0)
    } else {
        env_view(t.env@)
    }
    &&& opt_text(l.workdir) == opt_text(t.workdir)
    &&& l.stdout_log@ == path_join(path_join(cfg.logs_dir@, t.id@), "stdout.log"@)
    &&& l.stderr_log@ == path_join(path_join(cfg.logs_dir@, t.id@), "stderr.log"@)
}

/// What `stop_task` found and did.
#[derive(Debug)]
pub enum StopPlan {
    /// The task was not running: nothing to do.
    AlreadyStopped,
    /// Its process had already terminated: the task is now stopped.
    AlreadyTerminated(u32),
    /// It was marked running without a pid: the task is now stopped.
    Cleared,
    /// Its process runs: stop it, then call `mark_stopped`.
    Terminate { task_id: String, pid: u32 },
}

/// What `remove_task` found and did.
#[derive(Debug)]
pub enum Removal {
    /// The task was removed.
    Removed(Task),
    /// The task runs: stop it first, then remove it.
    MustStop,
}

/// The read-path reconciliation of one task: a task believed running whose
/// pid is not alive becomes stopped.
pub open spec fn refreshed(t: Task, live: Seq<u32>) -> Task {
    if t.status == TaskStatus::Running && t.pid is Some && !live.contains(t.pid->Some_0) {
        with_state(t, TaskStatus::Stopped, None)
    } else {
        t
    }
}

/// The exit code recorded for `id`, the first one when there are several.
pub open spec fn code_for(codes: Seq<(Seq<char>, i32)>, id: Seq<char>) -> Option<i32> {
    if exists|i: int| 0 <= i < codes.len() && codes[i].0 == id {
        let i = choose|i: int| 0 <= i < codes.len() && codes[i].0 == id
            && forall|j: int| 0 <= j < i ==> codes[j].0 != id;
        Some(codes[i].1)
    } else {
        None
    }
}

/// The daemon's reconciliation of one task after a reap: a task believed
/// running whose pid is not alive becomes failed, with the exit code the
/// reap collected for it, if any.
pub open spec fn reaped(t: Task, codes: Seq<(Seq<char>, i32)>, live: Seq<u32>) -> Task {
    if t.status == TaskStatus::Running && t.pid is Some && !live.contains(t.pid->Some_0) {
        Task {
            status: TaskStatus::Failed,
            pid: None,
            last_exit_code: match code_for(codes, t.id@) {
                Some(c) => Some(c),
                None => t.last_exit_code,
            },
            ..t
        }
    } else {
        t
    }
}

/// The codes with their names as characters.
pub open spec fn codes_view(v: Seq<(String, i32)>) -> Seq<(Seq<char>, i32)> {
    v.map_values(|p: (String, i32)| (p.0@, p.1))
}

/// A failed task with auto-restart whose attempts are not used up.
pub open spec fn eligible(t: Task) -> bool {
    t.auto_restart && t.status == TaskStatus::Failed && t.restart_count <= MAX_RESTART_ATTEMPTS
}

/// The ids of the tasks to restart, in registry order.
pub open spec fn candidate_ids(ts: Seq<Task>) -> Seq<Seq<char>>
    decreases ts.len(),
{
    if ts.len() == 0 {
        Seq::empty()
    } else if eligible(ts.last()) {
        candidate_ids(ts.drop_last()).push(ts.last().id@)
    } else {
        candidate_ids(ts.drop_last())
    }
}

/// The task as an automatic restart attempt begins: one more attempt counted.
pub open spec fn restart_begun(t: Task) -> Task {
    Task { restart_count: (t.restart_count + 1) as u32, ..t }
}

fn clone_strings(v: &Vec<String>) -> (r: Vec<String>)
    ensures
        r@ == v@,
{
    let mut r: Vec<String> = Vec::new();
    let mut i: usize = 0;
    while i < v.len()
        invariant
            i <= v@.len(),
            r@ == v@.subrange(0, i as int),
        decreases v@.len() - i,
    {
        r.push(v[i].clone());
        assert(r@ =~= v@.subrange(0, i as int + 1));
        i = i + 1;
    }
    assert(r@ =~= v@);
    r
}

fn clone_env(v: &EnvVars) -> (r: EnvVars)
    ensures
        r@ == v@,
{
    let mut r: EnvVars = Vec::new();
    let mut i: usize = 0;
    while i < v.len()
        invariant
            i <= v@.len(),
            r@ == v@.subrange(0, i as int),
        decreases v@.len() - i,
    {
        r.push((v[i].0.clone(), v[i].1.clone()));
        assert(r@ =~= v@.subrange(0, i as int + 1));
        i = i + 1;
    }
    assert(r@ =~= v@);
    r
}

fn clone_opt(o: &Option<String>) -> (r: Option<String>)
    ensures
        r == *o,
{
    match o {
        Some(s) => Some(s.clone()),
        None => None,
    }
}

impl TaskManager {
    fn set_state(&mut self, i: usize, status: TaskStatus, pid: Option<u32>)
        requires
            old(self).wf(),
            i < old(self).tasks_seq().len(),
            pid is Some ==> status == TaskStatus::Running,
        ensures
            final(self).wf(),
            final(self).config_of() == old(self).config_of(),
            final(self).tasks_seq() == old(self).tasks_seq().update(i as int, with_state(old(self).tasks_seq()[i as int], status, pid)),
    {
        let ghost before = self.tasks@;
        let t = &mut self.tasks[i];
        t.set_status(status);
        t.set_pid(pid);
        proof { self.lemma_update_wf(before, i as int); }
    }

    proof fn lemma_update_wf(&self, before: Seq<Task>, i: int)
        requires
            registry_wf(before),
            0 <= i < before.len(),
            self.tasks@ == before.update(i, self.tasks@[i]),
            self.tasks@[i].id@ == before[i].id@,
            self.tasks@[i].name@ == before[i].name@,
            self.tasks@[i].wf(),
        ensures
            self.wf(),
    {
        let ts = self.tasks@;
        assert forall|a: int, b: int| 0 <= a < b < ts.len() implies ts[a].id@ != ts[b].id@ && ts[a].name@ != ts[b].name@ by {
            assert(before[a].id@ != before[b].id@ && before[a].name@ != before[b].name@);
        }
        assert forall|a: int| 0 <= a < ts.len() implies (#[trigger] ts[a]).wf() by {
            if a != i { assert(ts[a] == before[a]); }
        }
    }

    /// Prepares the start of the task `identifier` designates. Fails with
    /// `TaskNotFound` when none is, with `TaskAlreadyRunning` when it runs
    /// and its pid is alive, and with `WorkdirNotFound` when its working
    /// directory is missing. A task believed running whose pid is dead is
    /// marked failed first, whatever follows. On success nothing else
    /// changes: the launch is returned, to be followed by `record_start`.
    pub fn prepare_start(&mut self, identifier: &str, facts: &StartFacts) -> (r: Result<LaunchSpec, HyperVError>)
        requires
            old(self).wf(),
        ensures
            final(self).wf(),
            final(self).config_of() == old(self).config_of(),
            !any_match(old(self).tasks_seq(), identifier@) ==> r is Err
                && r->Err_0@ == ErrorView::TaskNotFound(identifier@)
                && final(self).tasks_seq() == old(self).tasks_seq(),
            any_match(old(self).tasks_seq(), identifier@) ==> exists|i: int| first_match(old(self).tasks_seq(), identifier@, i) && {
                let t = old(self).tasks_seq()[i];
                if t.status == TaskStatus::Running && t.pid is Some && facts.alive {
                    r is Err && r->Err_0@ == ErrorView::TaskAlreadyRunning(t.name@)
                        && final(self).tasks_seq() == old(self).tasks_seq()
                } else {
                    &&& final(self).tasks_seq() == old(self).tasks_seq().update(i, start_reset(t))
                    &&& if t.workdir is Some && !facts.workdir_exists {
                        r is Err && r->Err_0@ == ErrorView::WorkdirNotFound(t.workdir->Some_0@)
                    } else {
                        r is Ok && is_launch_of(r->Ok_0, t, opt_text(facts.dotenv), old(self).config_of())
                    }
                }
            },
    {
        let i = match self.find_task_index(identifier) {
            Some(i) => i,
            None => {
                return Err(HyperVError::TaskNotFound(String::from_str(identifier)));
            }
        };
        let ghost t0 = self.tasks@[i as int];
        if self.tasks[i].status == TaskStatus::Running && self.tasks[i].pid.is_some() {
            if facts.alive {
                return Err(HyperVError::TaskAlreadyRunning(self.tasks[i].name.clone()));
            }
            self.set_state(i, TaskStatus::Failed, None);
        } else {
            assert(self.tasks@ =~= old(self).tasks@.update(i as int, start_reset(t0)));
        }
        let t = &self.tasks[i];
        match &t.workdir {
            Some(w) => {
                if !facts.workdir_exists {
                    return Err(HyperVError::WorkdirNotFound(w.clone()));
                }
            }
            None => {}
        }
        let mut env = clone_env(&t.env);
        if t.workdir.is_some() {
            match &facts.dotenv {
                Some(text) => crate::env::merge_dotenv_exec(&mut env, text.as_str()),
                None => {}
            }
        }
        let launch = LaunchSpec {
            task_id: t.id.clone(),
            name: t.name.clone(),
            binary: t.binary.clone(),
            args: clone_strings(&t.args),
            env,
            workdir: clone_opt(&t.workdir),
            stdout_log: self.config.stdout_log_path(t.id.as_str()),
            stderr_log: self.config.stderr_log_path(t.id.as_str()),
        };
        Ok(launch)
    }

    /// Records how the launch of the task `identifier` designates went: on
    /// success it runs under the new pid, started now; on failure it is
    /// marked failed and the error is returned. When no task is designated
    /// nothing changes.
    pub fn record_start(&mut self, identifier: &str, outcome: Result<u32, HyperVError>) -> (r: Result<(), HyperVError>)
        requires
            old(self).wf(),
        ensures
            final(self).wf(),
            final(self).config_of() == old(self).config_of(),
            outcome is Ok ==> r is Ok,
            outcome is Err ==> r is Err && r->Err_0 == outcome->Err_0,
            !any_match(old(self).tasks_seq(), identifier@) ==> final(self).tasks_seq() == old(self).tasks_seq(),
            any_match(old(self).tasks_seq(), identifier@) ==> exists|i: int| first_match(old(self).tasks_seq(), identifier@, i) && {
                let t = old(self).tasks_seq()[i];
                match outcome {
                    Ok(pid) => final(self).tasks_seq() == old(self).tasks_seq().update(i,
                            Task { last_started: final(self).tasks_seq()[i].last_started, ..with_state(t, TaskStatus::Running, Some(pid)) })
                        && final(self).tasks_seq()[i].last_started is Some,
                    Err(_) => final(self).tasks_seq() == old(self).tasks_seq().update(i, with_state(t, TaskStatus::Failed, None)),
                }
            },
    {
        match self.find_task_index(identifier) {
            None => match outcome {
                Ok(_) => Ok(()),
                Err(e) => Err(e),
            },
            Some(i) => match outcome {
                Ok(pid) => {
                    self.set_state(i, TaskStatus::Running, Some(pid));
                    let ghost before = self.tasks@;
                    let t = &mut self.tasks[i];
                    t.set_last_started();
                    proof { self.lemma_update_wf(before, i as int); }
                    assert(self.tasks@ =~= old(self).tasks@.update(i as int,
                        Task { last_started: self.tasks@[i as int].last_started, ..with_state(old(self).tasks@[i as int], TaskStatus::Running, Some(pid)) }));
                    Ok(())
                }
                Err(e) => {
                    self.set_state(i, TaskStatus::Failed, None);
                    Err(e)
                }
            },
        }
    }

    /// Stops the task `identifier` designates, as far as the registry goes.
    /// `alive` tells whether the pid it records is alive. Fails with
    /// `TaskNotFound` only. A task that is not running is left as it is; one
    /// whose process is gone, or that has no pid, becomes stopped; for one
    /// whose process runs the stop procedure is returned, after which
    /// `mark_stopped` records the outcome.
    pub fn stop_task(&mut self, identifier: &str, alive: bool) -> (r: Result<StopPlan, HyperVError>)
        requires
            old(self).wf(),
        ensures
            final(self).wf(),
            final(self).config_of() == old(self).config_of(),
            !any_match(old(self).tasks_seq(), identifier@) ==> r is Err
                && r->Err_0@ == ErrorView::TaskNotFound(identifier@)
                && final(self).tasks_seq() == old(self).tasks_seq(),
            any_match(old(self).tasks_seq(), identifier@) ==> exists|i: int| first_match(old(self).tasks_seq(), identifier@, i) && {
                let t = old(self).tasks_seq()[i];
                if t.status != TaskStatus::Running {
                    r matches Ok(StopPlan::AlreadyStopped) && final(self).tasks_seq() == old(self).tasks_seq()
                        && t.pid is None
                } else if t.pid is None {
                    r matches Ok(StopPlan::Cleared)
                        && final(self).tasks_seq() == old(self).tasks_seq().update(i, with_state(t, TaskStatus::Stopped, None))
                } else if !alive {
                    r == Ok::<StopPlan, HyperVError>(StopPlan::AlreadyTerminated(t.pid->Some_0))
                        && final(self).tasks_seq() == old(self).tasks_seq().update(i, with_state(t, TaskStatus::Stopped, None))
                } else {
                    r matches Ok(StopPlan::Terminate { task_id, pid }) && task_id@ == t.id@ && pid == t.pid->Some_0
                        && final(self).tasks_seq() == old(self).tasks_seq()
                }
            },
    {
        let i = match self.find_task_index(identifier) {
            Some(i) => i,
            None => {
                return Err(HyperVError::TaskNotFound(String::from_str(identifier)));
            }
        };
        assert(self.tasks@[i as int].wf());
        if self.tasks[i].status != TaskStatus::Running {
            return Ok(StopPlan::AlreadyStopped);
        }
        match self.tasks[i].pid {
            None => {
                self.set_state(i, TaskStatus::Stopped, None);
                Ok(StopPlan::Cleared)
            }
            Some(pid) => {
                if !alive {
                    self.set_state(i, TaskStatus::Stopped, None);
                    Ok(StopPlan::AlreadyTerminated(pid))
                } else {
                    Ok(StopPlan::Terminate { task_id: self.tasks[i].id.clone(), pid })
                }
            }
        }
    }

    /// Records that the task `identifier` designates was stopped: it is
    /// marked stopped and its pid cleared. Returns whether a task was found.
    pub fn mark_stopped(&mut self, identifier: &str) -> (r: bool)
        requires
            old(self).wf(),
        ensures
            final(self).wf(),
            final(self).config_of() == old(self).config_of(),
            r == any_match(old(self).tasks_seq(), identifier@),
            !r ==> final(self).tasks_seq() == old(self).tasks_seq(),
            r ==> exists|i: int| first_match(old(self).tasks_seq(), identifier@, i)
                && final(self).tasks_seq() == old(self).tasks_seq().update(i,
                    with_state(old(self).tasks_seq()[i], TaskStatus::Stopped, None)),
    {
        match self.find_task_index(identifier) {
            Some(i) => {
                self.set_state(i, TaskStatus::Stopped, None);
                true
            }
            None => false,
        }
    }

    /// Marks the task `identifier` designates failed, without a pid.
    /// Returns whether a task was found.
    pub fn mark_failed(&mut self, identifier: &str) -> (r: bool)
        requires
            old(self).wf(),
        ensures
            final(self).wf(),
            final(self).config_of() == old(self).config_of(),
            r == any_match(old(self).tasks_seq(), identifier@),
            !r ==> final(self).tasks_seq() == old(self).tasks_seq(),
            r ==> exists|i: int| first_match(old(self).tasks_seq(), identifier@, i)
                && final(self).tasks_seq() == old(self).tasks_seq().update(i,
                    with_state(old(self).tasks_seq()[i], TaskStatus::Failed, None)),
    {
        match self.find_task_index(identifier) {
            Some(i) => {
                self.set_state(i, TaskStatus::Failed, None);
                true
            }
            None => false,
        }
    }

    /// Removes the task `identifier` designates. Fails with `TaskNotFound`
    /// when none is. A running task is not removed: the caller stops it
    /// first and asks again.
    pub fn remove_task(&mut self, identifier: &str) -> (r: Result<Removal, HyperVError>)
        requires
            old(self).wf(),
        ensures
            final(self).wf(),
            final(self).config_of() == old(self).config_of(),
            !any_match(old(self).tasks_seq(), identifier@) ==> r is Err
                && r->Err_0@ == ErrorView::TaskNotFound(identifier@)
                && final(self).tasks_seq() == old(self).tasks_seq(),
            any_match(old(self).tasks_seq(), identifier@) ==> exists|i: int| first_match(old(self).tasks_seq(), identifier@, i) && {
                let t = old(self).tasks_seq()[i];
                if t.status == TaskStatus::Running {
                    r matches Ok(Removal::MustStop) && final(self).tasks_seq() == old(self).tasks_seq()
                } else {
                    r == Ok::<Removal, HyperVError>(Removal::Removed(t))
                        && final(self).tasks_seq() == old(self).tasks_seq().remove(i)
                }
            },
    {
        let i = match self.find_task_index(identifier) {
            Some(i) => i,
            None => {
                return Err(HyperVError::TaskNotFound(String::from_str(identifier)));
            }
        };
        if self.tasks[i].status == TaskStatus::Running {
            return Ok(Removal::MustStop);
        }
        let ghost before = self.tasks@;
        let t = self.tasks.remove(i);
        proof {
            let ts = self.tasks@;
            assert forall|a: int, b: int| 0 <= a < b < ts.len() implies ts[a].id@ != ts[b].id@ && ts[a].name@ != ts[b].name@ by {
                let a0 = if a < i { a } else { a + 1 };
                let b0 = if b < i { b } else { b + 1 };
                assert(ts[a] == before[a0] && ts[b] == before[b0]);
            }
            assert forall|a: int| 0 <= a < ts.len() implies (#[trigger] ts[a]).wf() by {
                let a0 = if a < i { a } else { a + 1 };
                assert(ts[a] == before[a0]);
            }
        }
        Ok(Removal::Removed(t))
    }
}

fn contains_pid(live: &Vec<u32>, pid: u32) -> (r: bool)
    ensures
        r == live@.contains(pid),
{
    let mut i: usize = 0;
    while i < live.len()
        invariant
            i <= live@.len(),
            forall|j: int| 0 <= j < i ==> live@[j] != pid,
        decreases live@.len() - i,
    {
        if live[i] == pid {
            return true;
        }
        i = i + 1;
    }
    false
}

proof fn lemma_code_at_first(cv: Seq<(Seq<char>, i32)>, id: Seq<char>, i: int)
    requires
        0 <= i < cv.len(),
        cv[i].0 == id,
        forall|j: int| 0 <= j < i ==> cv[j].0 != id,
    ensures
        code_for(cv, id) == Some(cv[i].1),
{
    assert(exists|c: int| 0 <= c < cv.len() && cv[c].0 == id && forall|j: int| 0 <= j < c ==> cv[j].0 != id);
    let c = choose|c: int| 0 <= c < cv.len() && cv[c].0 == id && forall|j: int| 0 <= j < c ==> cv[j].0 != id;
    if c < i {
        assert(cv[c].0 != id);
    } else if c > i {
        assert(cv[i].0 != id);
    }
}

fn lookup_code(codes: &Vec<(String, i32)>, id: &str) -> (r: Option<i32>)
    ensures
        r == code_for(codes_view(codes@), id@),
{
    let ghost cv = codes_view(codes@);
    let mut i: usize = 0;
    while i < codes.len()
        invariant
            i <= codes@.len(),
            cv == codes_view(codes@),
            forall|j: int| 0 <= j < i ==> cv[j].0 != id@,
        decreases codes@.len() - i,
    {
        if text_eq(codes[i].0.as_str(), id) {
            proof { lemma_code_at_first(cv, id@, i as int); }
            return Some(codes[i].1);
        }
        i = i + 1;
    }
    None
}

impl TaskManager {
    /// Reconciles the registry with the live processes, as listing and
    /// status do: each task believed running whose pid is not among
    /// `live_pids` becomes stopped. Returns whether any task changed.
    pub fn refresh_task_statuses(&mut self, live_pids: &Vec<u32>) -> (changed: bool)
        requires
            old(self).wf(),
        ensures
            final(self).wf(),
            final(self).config_of() == old(self).config_of(),
            final(self).tasks_seq() == old(self).tasks_seq().map_values(|t: Task| refreshed(t, live_pids@)),
            changed == exists|i: int| 0 <= i < old(self).tasks_seq().len()
                && refreshed(old(self).tasks_seq()[i], live_pids@) != old(self).tasks_seq()[i],
    {
        let ghost ts = self.tasks@;
        let mut changed = false;
        let mut i: usize = 0;
        while i < self.tasks.len()
            invariant
                self.wf(),
                self.config_of() == old(self).config_of(),
                ts == old(self).tasks_seq(),
                self.tasks@.len() == ts.len(),
                i <= ts.len(),
                forall|j: int| 0 <= j < i ==> self.tasks@[j] == refreshed(ts[j], live_pids@),
                forall|j: int| i <= j < ts.len() ==> self.tasks@[j] == ts[j],
                changed == exists|j: int| 0 <= j < i && refreshed(ts[j], live_pids@) != ts[j],
            decreases ts.len() - i,
        {
            let running = self.tasks[i].status == TaskStatus::Running;
            match self.tasks[i].pid {
                Some(pid) => {
                    if running && !contains_pid(live_pids, pid) {
                        self.set_state(i, TaskStatus::Stopped, None);
                        changed = true;
                    }
                }
                None => {}
            }
            i = i + 1;
        }
        assert(self.tasks@ =~= ts.map_values(|t: Task| refreshed(t, live_pids@)));
        changed
    }

    /// Reconciles the registry after a reap, as the daemon does: each task
    /// believed running whose pid is not among `live_pids` becomes failed,
    /// taking the exit code `exit_codes` holds for its id, if any. Returns
    /// whether any task changed.
    pub fn cleanup(&mut self, exit_codes: &Vec<(String, i32)>, live_pids: &Vec<u32>) -> (changed: bool)
        requires
            old(self).wf(),
        ensures
            final(self).wf(),
            final(self).config_of() == old(self).config_of(),
            final(self).tasks_seq() == old(self).tasks_seq().map_values(
                |t: Task| reaped(t, codes_view(exit_codes@), live_pids@)),
            changed == exists|i: int| 0 <= i < old(self).tasks_seq().len()
                && reaped(old(self).tasks_seq()[i], codes_view(exit_codes@), live_pids@) != old(self).tasks_seq()[i],
    {
        let ghost ts = self.tasks@;
        let ghost cv = codes_view(exit_codes@);
        let mut changed = false;
        let mut i: usize = 0;
        while i < self.tasks.len()
            invariant
                self.wf(),
                self.config_of() == old(self).config_of(),
                ts == old(self).tasks_seq(),
                cv == codes_view(exit_codes@),
                self.tasks@.len() == ts.len(),
                i <= ts.len(),
                forall|j: int| 0 <= j < i ==> self.tasks@[j] == reaped(ts[j], cv, live_pids@),
                forall|j: int| i <= j < ts.len() ==> self.tasks@[j] == ts[j],
                changed == exists|j: int| 0 <= j < i && reaped(ts[j], cv, live_pids@) != ts[j],
            decreases ts.len() - i,
        {
            let running = self.tasks[i].status == TaskStatus::Running;
            match self.tasks[i].pid {
                Some(pid) => {
                    if running && !contains_pid(live_pids, pid) {
                        let code = lookup_code(exit_codes, self.tasks[i].id.as_str());
                        let ghost before = self.tasks@;
                        let t = &mut self.tasks[i];
                        match code {
                            Some(c) => t.set_exit_code(Some(c)),
                            None => {}
                        }
                        proof { self.lemma_update_wf(before, i as int); }
                        self.set_state(i, TaskStatus::Failed, None);
                        assert(self.tasks@[i as int] == reaped(ts[i as int], cv, live_pids@));
                        changed = true;
                    }
                }
                None => {}
            }
            i = i + 1;
        }
        assert(self.tasks@ =~= ts.map_values(|t: Task| reaped(t, cv, live_pids@)));
        changed
    }

    /// The ids of the tasks due for an automatic restart: auto-restart on,
    /// failed, and at most `MAX_RESTART_ATTEMPTS` attempts counted.
    pub fn restart_candidates(&self) -> (r: Vec<String>)
        ensures
            texts(r@) == candidate_ids(self.tasks_seq()),
    {
        let mut r: Vec<String> = Vec::new();
        let mut i: usize = 0;
        while i < self.tasks.len()
            invariant
                i <= self.tasks@.len(),
                texts(r@) == candidate_ids(self.tasks@.subrange(0, i as int)),
            decreases self.tasks@.len() - i,
        {
            assert(self.tasks@.subrange(0, i as int + 1).drop_last() =~= self.tasks@.subrange(0, i as int));
            let t = &self.tasks[i];
            if t.auto_restart && t.status == TaskStatus::Failed && t.restart_count <= MAX_RESTART_ATTEMPTS {
                let ghost before = texts(r@);
                r.push(t.id.clone());
                assert(texts(r@) =~= before.push(t.id@));
            }
            i = i + 1;
        }
        assert(self.tasks@.subrange(0, self.tasks@.len() as int) =~= self.tasks@);
        r
    }

    /// Begins an automatic restart attempt of the task with id `task_id`:
    /// when it is due, one more attempt is counted and its name returned,
    /// under which the caller starts it (and marks it failed should that
    /// fail). Otherwise nothing changes.
    pub fn begin_restart(&mut self, task_id: &str) -> (r: Option<String>)
        requires
            old(self).wf(),
        ensures
            final(self).wf(),
            final(self).config_of() == old(self).config_of(),
            match r {
                None => final(self).tasks_seq() == old(self).tasks_seq()
                    && forall|i: int| 0 <= i < old(self).tasks_seq().len() && old(self).tasks_seq()[i].id@ == task_id@
                        ==> !eligible(old(self).tasks_seq()[i]),
                Some(name) => exists|i: int| 0 <= i < old(self).tasks_seq().len()
                    && old(self).tasks_seq()[i].id@ == task_id@
                    && eligible(old(self).tasks_seq()[i])
                    && name@ == old(self).tasks_seq()[i].name@
                    && final(self).tasks_seq() == old(self).tasks_seq().update(i, restart_begun(old(self).tasks_seq()[i])),
            },
    {
        let mut i: usize = 0;
        while i < self.tasks.len()
            invariant
                i <= self.tasks@.len(),
                self.wf(),
                self.tasks@ == old(self).tasks_seq(),
                self.config_of() == old(self).config_of(),
                forall|j: int| 0 <= j < i ==> self.tasks@[j].id@ != task_id@,
            decreases self.tasks@.len() - i,
        {
            if text_eq(self.tasks[i].id.as_str(), task_id) {
                let t = &self.tasks[i];
                if !(t.auto_restart && t.status == TaskStatus::Failed && t.restart_count <= MAX_RESTART_ATTEMPTS) {
                    assert forall|k: int| 0 <= k < self.tasks@.len() && self.tasks@[k].id@ == task_id@
                        implies !eligible(self.tasks@[k]) by {
                        if k != i as int {
                            if k < i { assert(self.tasks@[k].id@ != task_id@); }
                            else { assert(self.tasks@[i as int].id@ != self.tasks@[k].id@); }
                        }
                    }
                    return None;
                }
                let name = t.name.clone();
                let ghost before = self.tasks@;
                let tm = &mut self.tasks[i];
                tm.increment_restart_count();
                proof { self.lemma_update_wf(before, i as int); }
                assert(self.tasks@ =~= before.update(i as int, restart_begun(before[i as int])));
                return Some(name);
            }
            i = i + 1;
        }
        None
    }
}

/// Lookup is deterministic and insertion order breaks ties: when two tasks
/// are designated by the same identifier (say a common prefix of their
/// ids), the earlier one is the first match and the later one never is.
pub proof fn lookup_prefers_earlier(ts: Seq<Task>, ident: Seq<char>, a: int, b: int)
    requires
        0 <= a < b < ts.len(),
        designates(ts[a], ident),
        designates(ts[b], ident),
    ensures
        !first_match(ts, ident, b),
        exists|i: int| first_match(ts, ident, i) && i <= a,
        forall|i: int, j: int| first_match(ts, ident, i) && first_match(ts, ident, j) ==> i == j,
    decreases a,
{
    assert forall|i: int, j: int| first_match(ts, ident, i) && first_match(ts, ident, j) implies i == j by {
        if i < j { assert(!designates(ts[i], ident)); }
        if j < i { assert(!designates(ts[j], ident)); }
    }
    if forall|j: int| 0 <= j < a ==> !designates(ts[j], ident) {
        assert(first_match(ts, ident, a));
    } else {
        let c = choose|j: int| 0 <= j < a && designates(ts[j], ident);
        lookup_prefers_earlier(ts, ident, c, b);
    }
}

/// Ids stay unique: in a well-formed registry no two tasks share an id,
/// and a task created under an id no task has keeps it so.
pub proof fn created_ids_are_distinct(ts: Seq<Task>, t: Task)
    requires
        registry_wf(ts),
        !id_taken(ts, t.id@),
    ensures
        forall|i: int, j: int| 0 <= i < j < ts.push(t).len() ==> ts.push(t)[i].id@ != ts.push(t)[j].id@,
{
    assert forall|i: int, j: int| 0 <= i < j < ts.push(t).len() implies ts.push(t)[i].id@ != ts.push(t)[j].id@ by {
        if j == ts.len() {
            assert(ts.push(t)[i] == ts[i]);
        } else {
            assert(ts[i].id@ != ts[j].id@);
        }
    }
}

/// The two reconciliation paths differ by design. For a task believed
/// running whose process is gone, the read path marks it stopped and
/// leaves its exit code alone; the daemon's reap path marks it failed with
/// the exit code the reap collected. Both clear the pid.
pub proof fn reconciliation_paths_differ(t: Task, live: Seq<u32>, codes: Seq<(Seq<char>, i32)>, c: i32)
    requires
        t.status == TaskStatus::Running,
        t.pid is Some,
        !live.contains(t.pid->Some_0),
        code_for(codes, t.id@) == Some(c),
    ensures
        refreshed(t, live).status == TaskStatus::Stopped,
        refreshed(t, live).pid is None,
        refreshed(t, live).last_exit_code == t.last_exit_code,
        reaped(t, codes, live).status == TaskStatus::Failed,
        reaped(t, codes, live).pid is None,
        reaped(t, codes, live).last_exit_code == Some(c),
{
}

/// One daemon tick for a task whose start always fails: when it is due,
/// an attempt is counted and the failed start leaves it failed without a
/// pid; otherwise nothing happens.
pub open spec fn failing_tick(t: Task) -> Task {
    if eligible(t) { with_state(restart_begun(t), TaskStatus::Failed, None) } else { t }
}

/// `k` daemon ticks for a task whose start always fails.
pub open spec fn failing_ticks(t: Task, k: nat) -> Task
    decreases k,
{
    if k == 0 { t } else { failing_tick(failing_ticks(t, (k - 1) as nat)) }
}

/// Restarts are capped. A failed auto-restart task whose start always
/// fails is retried exactly while its count is at most
/// `MAX_RESTART_ATTEMPTS`: after `k` ticks the count is the smaller of
/// start + `k` and `MAX_RESTART_ATTEMPTS + 1`, the task is still failed, and
/// it is due again only while the count has not passed the cap. The count
/// never decreases.
pub proof fn restart_attempts_are_capped(t: Task, k: nat)
    requires
        t.auto_restart,
        t.status == TaskStatus::Failed,
        t.restart_count <= MAX_RESTART_ATTEMPTS + 1,
    ensures
        failing_ticks(t, k).restart_count == if t.restart_count + k <= MAX_RESTART_ATTEMPTS + 1 {
            t.restart_count + k
        } else {
            MAX_RESTART_ATTEMPTS + 1
        },
        failing_ticks(t, k).restart_count >= t.restart_count,
        failing_ticks(t, k).status == TaskStatus::Failed,
        failing_ticks(t, k).auto_restart,
        eligible(failing_ticks(t, k)) == (t.restart_count + k <= MAX_RESTART_ATTEMPTS),
    decreases k,
{
    if k > 0 {
        restart_attempts_are_capped(t, (k - 1) as nat);
    }
}

} // verus!
