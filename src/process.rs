//! The process supervisor: the table of live process handles, zombie
//! reaping, and the signal escalation that stops a process.
use vstd::prelude::*;
pub use crate::binary::diagnose_binary;

verus! {

/// The names of a list of entries.
pub open spec fn names_of<H>(e: Seq<(String, H)>) -> Seq<Seq<char>> {
    e.map_values(|p: (String, H)| p.0@)
}

/// No item occurs twice.
pub open spec fn unique(s: Seq<Seq<char>>) -> bool {
    forall|i: int, j: int| 0 <= i < j < s.len() ==> s[i] != s[j]
}

/// What a non-blocking wait on a tracked process reported.
#[derive(Debug, Clone, Copy, PartialEq, Eq, Structural)]
pub enum WaitStatus {
    /// It is still running.
    Running,
    /// It has terminated, with its exit code when it has one.
    Exited(Option<i32>),
    /// The wait failed.
    Unknown,
}

/// Whether entry `i` stays tracked after a reap: its process runs, or no
/// status was reported for it.
pub open spec fn stays(outcomes: Seq<WaitStatus>, i: int) -> bool {
    i >= outcomes.len() || outcomes[i] is Running
}

/// The names still tracked after a reap of the first `n` entries.
pub open spec fn reaped_names(names: Seq<Seq<char>>, outcomes: Seq<WaitStatus>, n: int) -> Seq<Seq<char>>
    decreases n,
{
    if n <= 0 {
        Seq::empty()
    } else {
        let r = reaped_names(names, outcomes, n - 1);
        if stays(outcomes, n - 1) { r.push(names[n - 1]) } else { r }
    }
}

/// The exit codes a reap of the first `n` entries collects, by name.
pub open spec fn reaped_codes(names: Seq<Seq<char>>, outcomes: Seq<WaitStatus>, n: int) -> Seq<(Seq<char>, i32)>
    decreases n,
{
    if n <= 0 {
        Seq::empty()
    } else {
        let r = reaped_codes(names, outcomes, n - 1);
        if n - 1 < outcomes.len() {
            match outcomes[n - 1] {
                WaitStatus::Exited(Some(c)) => r.push((names[n - 1], c)),
                _ => r,
            }
        } else {
            r
        }
    }
}

/// The live process handles of the supervisor, keyed by task id. `H` is
/// the handle type of the platform.
pub struct ProcessManager<H> {
    running_processes: Vec<(String, H)>,
}

impl<H> ProcessManager<H> {
    /// The task ids with a live handle, in the order they were tracked.
    pub closed spec fn ids(&self) -> Seq<Seq<char>> {
        names_of(self.running_processes@)
    }

    /// The handles, in the order of `ids`.
    pub closed spec fn handles(&self) -> Seq<H> {
        self.running_processes@.map_values(|p: (String, H)| p.1)
    }

    /// Each task id has at most one handle.
    pub closed spec fn wf(&self) -> bool {
        unique(self.ids())
    }

    proof fn lemma_lengths(&self)
        ensures
            self.ids().len() == self.running_processes@.len(),
            self.handles().len() == self.running_processes@.len(),
    {
    }

    /// An empty table.
    pub fn new() -> (r: Self)
        ensures
            r.wf(),
            r.ids() == Seq::<Seq<char>>::empty(),
    {
        let r = ProcessManager { running_processes: Vec::new() };
        assert(r.ids() =~= Seq::<Seq<char>>::empty());
        r
    }

    fn position(&self, task_id: &str) -> (r: Option<usize>)
        ensures
            match r {
                None => !self.ids().contains(task_id@),
                Some(i) => i < self.ids().len() && self.ids()[i as int] == task_id@,
            },
    {
        let mut i: usize = 0;
        while i < self.running_processes.len()
            invariant
                i <= self.running_processes@.len(),
                forall|j: int| 0 <= j < i ==> self.ids()[j] != task_id@,
            decreases self.running_processes@.len() - i,
        {
            if crate::text::text_eq(self.running_processes[i].0.as_str(), task_id) {
                return Some(i);
            }
            i = i + 1;
        }
        None
    }

    /// Whether the task has a live handle here.
    pub fn is_task_running(&self, task_id: &str) -> (r: bool)
        ensures
            r == self.ids().contains(task_id@),
    {
        self.position(task_id).is_some()
    }

    /// The number of live handles.
    pub fn running_count(&self) -> (r: usize)
        ensures
            r == self.ids().len(),
    {
        self.running_processes.len()
    }

    /// Records the handle of a task's new process, replacing and returning
    /// a handle it had.
    pub fn track(&mut self, task_id: String, handle: H) -> (r: Option<H>)
        requires
            old(self).wf(),
        ensures
            final(self).wf(),
            old(self).ids().contains(task_id@) ==> final(self).ids() == old(self).ids() && r is Some,
            !old(self).ids().contains(task_id@) ==> final(self).ids() == old(self).ids().push(task_id@) && r is None,
            exists|i: int| 0 <= i < final(self).ids().len() && final(self).ids()[i] == task_id@
                && final(self).handles()[i] == handle,
    {
        let ghost id = task_id@;
        match self.position(task_id.as_str()) {
            Some(i) => {
                let mut entry = (task_id, handle);
                std::mem::swap(&mut entry, &mut self.running_processes[i]);
                assert(self.ids() =~= old(self).ids());
                assert(self.ids()[i as int] == id && self.handles()[i as int] == handle);
                Some(entry.1)
            }
            None => {
                self.running_processes.push((task_id, handle));
                assert(self.ids() =~= old(self).ids().push(id));
                assert(self.ids()[self.ids().len() - 1] == id);
                None
            }
        }
    }

    /// Drops the handle of a task from the table and returns it.
    pub fn untrack(&mut self, task_id: &str) -> (r: Option<H>)
        requires
            old(self).wf(),
        ensures
            final(self).wf(),
            !final(self).ids().contains(task_id@),
            match r {
                None => !old(self).ids().contains(task_id@) && final(self).ids() == old(self).ids(),
                Some(h) => exists|i: int| 0 <= i < old(self).ids().len() && old(self).ids()[i] == task_id@
                    && old(self).handles()[i] == h && final(self).ids() == old(self).ids().remove(i),
            },
    {
        match self.position(task_id) {
            Some(i) => {
                let ghost before = self.ids();
                let entry = self.running_processes.remove(i);
                assert(self.ids() =~= before.remove(i as int));
                assert forall|k: int| 0 <= k < self.ids().len() implies self.ids()[k] != task_id@ by {
                    if k < i { assert(before[k] != before[i as int]); }
                    else { assert(before[k + 1] != before[i as int]); }
                }
                Some(entry.1)
            }
            None => None,
        }
    }

    /// The handle at position `i`, to wait on it.
    pub fn handle_mut(&mut self, i: usize) -> (h: &mut H)
        requires
            i < old(self).ids().len(),
        ensures
            *h == old(self).handles()[i as int],
            final(self).ids() == old(self).ids(),
            final(self).handles() == old(self).handles().update(i as int, *final(h)),
            final(self).wf() == old(self).wf(),
    {
        proof { self.lemma_lengths(); }
        let ghost before = self.running_processes@;
        let r = &mut self.running_processes[i].1;
        proof {
            // The name at `i` is untouched; only the handle moves.
            assert(names_of(before.update(i as int, (before[i as int].0, *final(r)))) =~= names_of(before));
        }
        r
    }

    /// Applies the statuses of a reap: `outcomes[i]` is what waiting on the
    /// handle at position `i` reported (a missing one counts as still
    /// running). Handles whose process terminated, or whose wait failed,
    /// leave the table; the exit codes of those that terminated with one are
    /// returned by task id.
    pub fn cleanup_zombies(&mut self, outcomes: &Vec<WaitStatus>) -> (r: Vec<(String, i32)>)
        requires
            old(self).wf(),
        ensures
            final(self).wf(),
            final(self).ids() == reaped_names(old(self).ids(), outcomes@, old(self).ids().len() as int),
            r@.map_values(|p: (String, i32)| (p.0@, p.1))
                == reaped_codes(old(self).ids(), outcomes@, old(self).ids().len() as int),
    {
        proof { self.lemma_lengths(); }
        let ghost names = self.ids();
        let ghost n = names.len();
        let mut rest: Vec<(String, H)> = Vec::new();
        std::mem::swap(&mut rest, &mut self.running_processes);
        let ghost orig = rest@;
        let total = rest.len();
        let mut codes: Vec<(String, i32)> = Vec::new();
        let mut i: usize = 0;
        while rest.len() > 0
            invariant
                n == orig.len(),
                n == total,
                names == names_of(orig),
                unique(names),
                i <= n,
                rest@ == orig.subrange(i as int, n as int),
                self.ids() == reaped_names(names, outcomes@, i as int),
                unique(self.ids()),
                forall|k: int| 0 <= k < self.ids().len() ==>
                    exists|j: int| 0 <= j < i && #[trigger] self.ids()[k] == names[j],
                codes@.map_values(|p: (String, i32)| (p.0@, p.1)) == reaped_codes(names, outcomes@, i as int),
            decreases rest@.len(),
        {
            let ghost kept = self.ids();
            let ghost got = codes@.map_values(|p: (String, i32)| (p.0@, p.1));
            let entry = rest.remove(0);
            assert(entry == orig[i as int]);
            assert(entry.0@ == names[i as int]);
            let status = if i < outcomes.len() { outcomes[i] } else { WaitStatus::Running };
            match status {
                WaitStatus::Running => {
                    self.running_processes.push(entry);
                    assert(self.ids() =~= kept.push(names[i as int]));
                    assert forall|k: int| 0 <= k < self.ids().len() implies
                        exists|j: int| 0 <= j < i + 1 && #[trigger] self.ids()[k] == names[j] by {
                        if k < kept.len() {
                            let j = choose|j: int| 0 <= j < i && kept[k] == names[j];
                            assert(self.ids()[k] == names[j]);
                        } else {
                            assert(self.ids()[k] == names[i as int]);
                        }
                    }
                    assert forall|a: int, b: int| 0 <= a < b < self.ids().len() implies self.ids()[a] != self.ids()[b] by {
                        if b == kept.len() {
                            let j = choose|j: int| 0 <= j < i && kept[a] == names[j];
                            assert(names[j] != names[i as int]);
                        }
                    }
                    assert(codes@.map_values(|p: (String, i32)| (p.0@, p.1)) =~= reaped_codes(names, outcomes@, i as int + 1));
                }
                WaitStatus::Exited(Some(c)) => {
                    codes.push((entry.0, c));
                    assert(codes@.map_values(|p: (String, i32)| (p.0@, p.1)) =~= got.push((names[i as int], c)));
                    assert(self.ids() =~= reaped_names(names, outcomes@, i as int + 1));
                }
                _ => {
                    assert(self.ids() =~= reaped_names(names, outcomes@, i as int + 1));
                    assert(codes@.map_values(|p: (String, i32)| (p.0@, p.1)) =~= reaped_codes(names, outcomes@, i as int + 1));
                }
            }
            i = i + 1;
            assert(rest@ =~= orig.subrange(i as int, n as int));
        }
        codes
    }
}

impl<H> Default for ProcessManager<H> {
    fn default() -> (r: Self)
        ensures
            r.wf(),
            r.ids() == Seq::<Seq<char>>::empty(),
    {
        ProcessManager::new()
    }
}

} // verus!
