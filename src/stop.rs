//! Stopping a process: graceful signal, grace period, forceful signal.
//!
//! The procedure is a state machine. The caller performs each action it
//! asks for (probe the pid, send a signal, wait) and hands back what came
//! of it; the machine answers with the next action, until it finishes.
use vstd::prelude::*;
use crate::error::{ErrorView, HyperVError};
use crate::text::{decimal_chars, push_decimal};

verus! {

/// A signal sent to stop a process.
#[derive(Clone, Copy, Debug, PartialEq, Eq, Structural)]
pub enum Signal {
    /// The graceful termination signal.
    Terminate,
    /// The forceful kill signal.
    Kill,
}

/// Where a signal is sent.
#[derive(Clone, Copy, Debug, PartialEq, Eq, Structural)]
pub enum SignalTarget {
    /// The process group the process leads.
    Group,
    /// The process alone.
    Process,
}

/// A wait of the procedure.
#[derive(Clone, Copy, Debug, PartialEq, Eq, Structural)]
pub enum Pause {
    /// The grace period between the graceful and the forceful signal.
    Grace,
    /// The short wait after the forceful signal.
    Settle,
}

/// Where the procedure stands.
#[derive(Clone, Copy, Debug, PartialEq, Eq, Structural)]
pub enum StopPhase {
    Probing,
    TermGroup,
    TermProcess,
    TermRecheck,
    Grace,
    GraceProbe,
    KillGroup,
    KillProcess,
    KillRecheck,
    Settle,
    Stopped,
    Failed,
}

/// What came of the last action.
#[derive(Debug)]
pub enum StopEvent {
    /// The liveness probe answered.
    Alive(bool),
    /// The signal was delivered, or not, with the system's error text.
    Sent(Result<(), String>),
    /// The wait is over.
    Waited,
}

/// What the caller is to do next.
#[derive(Debug)]
pub enum StopAction {
    /// Probe whether the pid is alive.
    Probe,
    /// Send a signal.
    Send(Signal, SignalTarget),
    /// Wait.
    Wait(Pause),
    /// The procedure is over.
    Finish(Result<(), HyperVError>),
}

/// An event, without the error text.
#[derive(Clone, Copy, PartialEq, Eq, Structural)]
pub enum EventView {
    Alive(bool),
    Sent(bool),
    Waited,
}

/// An action, without the error.
#[derive(Clone, Copy, PartialEq, Eq, Structural)]
pub enum ActionView {
    Probe,
    Send(Signal, SignalTarget),
    Wait(Pause),
    Succeed,
    Fail,
}

impl View for StopEvent {
    type V = EventView;

    open spec fn view(&self) -> EventView {
        match self {
            StopEvent::Alive(b) => EventView::Alive(*b),
            StopEvent::Sent(r) => EventView::Sent(r is Ok),
            StopEvent::Waited => EventView::Waited,
        }
    }
}

impl View for StopAction {
    type V = ActionView;

    open spec fn view(&self) -> ActionView {
        match self {
            StopAction::Probe => ActionView::Probe,
            StopAction::Send(s, t) => ActionView::Send(*s, *t),
            StopAction::Wait(p) => ActionView::Wait(*p),
            StopAction::Finish(Ok(_)) => ActionView::Succeed,
            StopAction::Finish(Err(_)) => ActionView::Fail,
        }
    }
}

/// The action a phase asks for while it waits for its answer.
pub open spec fn pending(p: StopPhase) -> ActionView {
    match p {
        StopPhase::Probing => ActionView::Probe,
        StopPhase::TermGroup => ActionView::Send(Signal::Terminate, SignalTarget::Group),
        StopPhase::TermProcess => ActionView::Send(Signal::Terminate, SignalTarget::Process),
        StopPhase::TermRecheck => ActionView::Probe,
        StopPhase::Grace => ActionView::Wait(Pause::Grace),
        StopPhase::GraceProbe => ActionView::Probe,
        StopPhase::KillGroup => ActionView::Send(Signal::Kill, SignalTarget::Group),
        StopPhase::KillProcess => ActionView::Send(Signal::Kill, SignalTarget::Process),
        StopPhase::KillRecheck => ActionView::Probe,
        StopPhase::Settle => ActionView::Wait(Pause::Settle),
        StopPhase::Stopped => ActionView::Succeed,
        StopPhase::Failed => ActionView::Fail,
    }
}

/// One transition: the next phase and the action it asks for. An event
/// that does not answer the pending action repeats that action.
pub open spec fn stop_next(p: StopPhase, e: EventView) -> (StopPhase, ActionView) {
    let next = match (p, e) {
        (StopPhase::Probing, EventView::Alive(false)) => StopPhase::Stopped,
        (StopPhase::Probing, EventView::Alive(true)) => StopPhase::TermGroup,
        (StopPhase::TermGroup, EventView::Sent(true)) => StopPhase::Grace,
        (StopPhase::TermGroup, EventView::Sent(false)) => StopPhase::TermProcess,
        (StopPhase::TermProcess, EventView::Sent(true)) => StopPhase::Grace,
        (StopPhase::TermProcess, EventView::Sent(false)) => StopPhase::TermRecheck,
        (StopPhase::TermRecheck, EventView::Alive(false)) => StopPhase::Stopped,
        (StopPhase::TermRecheck, EventView::Alive(true)) => StopPhase::Failed,
        (StopPhase::Grace, EventView::Waited) => StopPhase::GraceProbe,
        (StopPhase::GraceProbe, EventView::Alive(false)) => StopPhase::Stopped,
        (StopPhase::GraceProbe, EventView::Alive(true)) => StopPhase::KillGroup,
        (StopPhase::KillGroup, EventView::Sent(true)) => StopPhase::Settle,
        (StopPhase::KillGroup, EventView::Sent(false)) => StopPhase::KillProcess,
        (StopPhase::KillProcess, EventView::Sent(true)) => StopPhase::Settle,
        (StopPhase::KillProcess, EventView::Sent(false)) => StopPhase::KillRecheck,
        (StopPhase::KillRecheck, EventView::Alive(false)) => StopPhase::Stopped,
        (StopPhase::KillRecheck, EventView::Alive(true)) => StopPhase::Failed,
        (StopPhase::Settle, EventView::Waited) => StopPhase::Stopped,
        _ => p,
    };
    (next, pending(next))
}

/// The phase reached and the actions asked for, the first one included,
/// when the events `evs` answer them in turn.
pub open spec fn stop_trace(evs: Seq<EventView>) -> (StopPhase, Seq<ActionView>)
    decreases evs.len(),
{
    if evs.len() == 0 {
        (StopPhase::Probing, seq![ActionView::Probe])
    } else {
        let (p, acts) = stop_trace(evs.drop_last());
        let (q, a) = stop_next(p, evs.last());
        (q, acts.push(a))
    }
}

/// Before action `k`, the grace period was asked for and its end reported.
pub open spec fn grace_elapsed_before(evs: Seq<EventView>, acts: Seq<ActionView>, k: int) -> bool {
    exists|j: int| 0 <= j < k && j < evs.len() && acts[j] == ActionView::Wait(Pause::Grace)
        && evs[j] == EventView::Waited
}

/// The phases that come after the grace period.
pub open spec fn after_grace(p: StopPhase) -> bool {
    p == StopPhase::GraceProbe || p == StopPhase::KillGroup || p == StopPhase::KillProcess
        || p == StopPhase::KillRecheck || p == StopPhase::Settle
}

proof fn lemma_trace(evs: Seq<EventView>)
    ensures
        stop_trace(evs).1.len() == evs.len() + 1,
        stop_trace(evs).1.last() == pending(stop_trace(evs).0),
        after_grace(stop_trace(evs).0) ==> grace_elapsed_before(evs, stop_trace(evs).1, evs.len() as int + 1),
        forall|k: int| 0 <= k < stop_trace(evs).1.len()
            && (#[trigger] stop_trace(evs).1[k]) is Send && stop_trace(evs).1[k]->Send_0 == Signal::Kill
            ==> grace_elapsed_before(evs, stop_trace(evs).1, k),
    decreases evs.len(),
{
    if evs.len() > 0 {
        let prev = evs.drop_last();
        lemma_trace(prev);
        let (p, acts) = stop_trace(prev);
        let e = evs.last();
        let (q, a) = stop_next(p, e);
        let acts2 = acts.push(a);
        assert(stop_trace(evs) == (q, acts2));
        assert forall|k: int| 0 <= k < acts2.len() && (#[trigger] acts2[k]) is Send
            && acts2[k]->Send_0 == Signal::Kill implies grace_elapsed_before(evs, acts2, k) by {
            if k < acts.len() {
                assert(acts2[k] == acts[k]);
                let j = choose|j: int| 0 <= j < k && j < prev.len() && acts[j] == ActionView::Wait(Pause::Grace)
                    && prev[j] == EventView::Waited;
                assert(evs[j] == prev[j] && acts2[j] == acts[j]);
            } else {
                assert(after_grace(p));
                let j = choose|j: int| 0 <= j < prev.len() + 1 && j < prev.len()
                    && acts[j] == ActionView::Wait(Pause::Grace) && prev[j] == EventView::Waited;
                assert(evs[j] == prev[j] && acts2[j] == acts[j]);
            }
        }
        if after_grace(q) {
            if after_grace(p) {
                let j = choose|j: int| 0 <= j < prev.len() + 1 && j < prev.len()
                    && acts[j] == ActionView::Wait(Pause::Grace) && prev[j] == EventView::Waited;
                assert(evs[j] == prev[j] && acts2[j] == acts[j]);
            } else {
                let j = prev.len() as int;
                assert(acts2[j] == acts.last());
                assert(evs[j] == e);
            }
        }
    }
}

/// The forceful signal comes only after the grace period: whatever the
/// probes and deliveries report, every kill signal the procedure asks for
/// is preceded by a wait for the grace period whose end was reported.
pub proof fn kill_only_after_grace(evs: Seq<EventView>, k: int)
    requires
        0 <= k < stop_trace(evs).1.len(),
        stop_trace(evs).1[k] is Send,
        stop_trace(evs).1[k]->Send_0 == Signal::Kill,
    ensures
        grace_elapsed_before(evs, stop_trace(evs).1, k),
{
    lemma_trace(evs);
}

proof fn lemma_stays_stopped(evs: Seq<EventView>)
    requires
        evs.len() >= 1,
        evs[0] == EventView::Alive(false),
    ensures
        stop_trace(evs).0 == StopPhase::Stopped,
        stop_trace(evs).1.len() == evs.len() + 1,
        forall|k: int| 1 <= k < stop_trace(evs).1.len() ==> #[trigger] stop_trace(evs).1[k] == ActionView::Succeed,
    decreases evs.len(),
{
    if evs.len() == 1 {
        assert(evs.drop_last() =~= Seq::<EventView>::empty());
        assert(evs.last() == evs[0]);
    } else {
        let prev = evs.drop_last();
        assert(prev[0] == evs[0]);
        lemma_stays_stopped(prev);
        let acts = stop_trace(prev).1;
        let acts2 = acts.push(ActionView::Succeed);
        assert(stop_trace(evs).1 == acts2);
        assert forall|k: int| 1 <= k < acts2.len() implies #[trigger] acts2[k] == ActionView::Succeed by {
            if k < acts.len() {
                assert(acts2[k] == acts[k]);
            }
        }
    }
}

/// Stopping a process that is already gone succeeds at once: when the
/// first probe finds the pid dead, every later action is success, and no
/// signal is ever sent.
pub proof fn stop_of_dead_process_sends_nothing(evs: Seq<EventView>, k: int)
    requires
        evs.len() >= 1,
        evs[0] == EventView::Alive(false),
        1 <= k < stop_trace(evs).1.len(),
    ensures
        stop_trace(evs).1[k] == ActionView::Succeed,
{
    lemma_stays_stopped(evs);
}

/// The error text when the graceful signal could not be delivered.
pub open spec fn term_failure(pid: u32, errno: Seq<char>) -> Seq<char> {
    "Failed to send SIGTERM to process "@ + decimal_chars(pid as nat) + " (errno: "@ + errno + ")"@
}

/// The error text when the forceful signal could not be delivered.
pub open spec fn kill_failure(pid: u32, errno: Seq<char>) -> Seq<char> {
    "Failed to kill process "@ + decimal_chars(pid as nat) + " (errno: "@ + errno + ")"@
}

fn failure_text(lead: &str, pid: u32, errno: &str) -> (r: String)
    ensures
        r@ == lead@ + decimal_chars(pid as nat) + " (errno: "@ + errno@ + ")"@,
{
    let mut r = String::from_str(lead);
    push_decimal(&mut r, pid as u64);
    r.append(" (errno: ");
    r.append(errno);
    r.append(")");
    r
}

/// The procedure that stops the process `pid`.
#[derive(Debug)]
pub struct StopProcedure {
    pub pid: u32,
    pub phase: StopPhase,
    /// The system's text for the last failed delivery.
    pub errno: String,
    /// The error text once the procedure has failed.
    pub failure: String,
}

impl StopProcedure {
    /// A procedure for `pid`, and its first action: probe the pid.
    pub fn new(pid: u32) -> (r: (StopProcedure, StopAction))
        ensures
            r.0.pid == pid,
            r.0.phase == StopPhase::Probing,
            r.1@ == ActionView::Probe,
    {
        (StopProcedure { pid, phase: StopPhase::Probing, errno: String::new(), failure: String::new() }, StopAction::Probe)
    }

    fn action_of(&self) -> (a: StopAction)
        ensures
            a@ == pending(self.phase),
            a is Finish && a->Finish_0 is Err ==> a->Finish_0->Err_0@ == ErrorView::ProcessStop(self.failure@),
    {
        match self.phase {
            StopPhase::Probing | StopPhase::TermRecheck | StopPhase::GraceProbe | StopPhase::KillRecheck => StopAction::Probe,
            StopPhase::TermGroup => StopAction::Send(Signal::Terminate, SignalTarget::Group),
            StopPhase::TermProcess => StopAction::Send(Signal::Terminate, SignalTarget::Process),
            StopPhase::KillGroup => StopAction::Send(Signal::Kill, SignalTarget::Group),
            StopPhase::KillProcess => StopAction::Send(Signal::Kill, SignalTarget::Process),
            StopPhase::Grace => StopAction::Wait(Pause::Grace),
            StopPhase::Settle => StopAction::Wait(Pause::Settle),
            StopPhase::Stopped => StopAction::Finish(Ok(())),
            StopPhase::Failed => StopAction::Finish(Err(HyperVError::ProcessStop(self.failure.clone()))),
        }
    }

    /// Takes what came of the last action and returns the next one.
    pub fn step(&mut self, event: StopEvent) -> (a: StopAction)
        ensures
            (final(self).phase, a@) == stop_next(old(self).phase, event@),
            final(self).pid == old(self).pid,
            a is Finish && a->Finish_0 is Err ==> a->Finish_0->Err_0@ == ErrorView::ProcessStop(final(self).failure@),
            final(self).phase == StopPhase::Failed && old(self).phase == StopPhase::TermRecheck ==>
                final(self).failure@ == term_failure(old(self).pid, old(self).errno@),
            final(self).phase == StopPhase::Failed && old(self).phase == StopPhase::KillRecheck ==>
                final(self).failure@ == kill_failure(old(self).pid, old(self).errno@),
    {
        let next = match (self.phase, &event) {
            (StopPhase::Probing, StopEvent::Alive(false)) => StopPhase::Stopped,
            (StopPhase::Probing, StopEvent::Alive(true)) => StopPhase::TermGroup,
            (StopPhase::TermGroup, StopEvent::Sent(Ok(_))) => StopPhase::Grace,
            (StopPhase::TermGroup, StopEvent::Sent(Err(_))) => StopPhase::TermProcess,
            (StopPhase::TermProcess, StopEvent::Sent(Ok(_))) => StopPhase::Grace,
            (StopPhase::TermProcess, StopEvent::Sent(Err(_))) => StopPhase::TermRecheck,
            (StopPhase::TermRecheck, StopEvent::Alive(false)) => StopPhase::Stopped,
            (StopPhase::TermRecheck, StopEvent::Alive(true)) => StopPhase::Failed,
            (StopPhase::Grace, StopEvent::Waited) => StopPhase::GraceProbe,
            (StopPhase::GraceProbe, StopEvent::Alive(false)) => StopPhase::Stopped,
            (StopPhase::GraceProbe, StopEvent::Alive(true)) => StopPhase::KillGroup,
            (StopPhase::KillGroup, StopEvent::Sent(Ok(_))) => StopPhase::Settle,
            (StopPhase::KillGroup, StopEvent::Sent(Err(_))) => StopPhase::KillProcess,
            (StopPhase::KillProcess, StopEvent::Sent(Ok(_))) => StopPhase::Settle,
            (StopPhase::KillProcess, StopEvent::Sent(Err(_))) => StopPhase::KillRecheck,
            (StopPhase::KillRecheck, StopEvent::Alive(false)) => StopPhase::Stopped,
            (StopPhase::KillRecheck, StopEvent::Alive(true)) => StopPhase::Failed,
            (StopPhase::Settle, StopEvent::Waited) => StopPhase::Stopped,
            _ => self.phase,
        };
        if next == StopPhase::Failed && self.phase == StopPhase::TermRecheck {
            self.failure = failure_text("Failed to send SIGTERM to process ", self.pid, self.errno.as_str());
        } else if next == StopPhase::Failed && self.phase == StopPhase::KillRecheck {
            self.failure = failure_text("Failed to kill process ", self.pid, self.errno.as_str());
        }
        match event {
            StopEvent::Sent(Err(text)) => {
                self.errno = text;
            }
            _ => {}
        }
        self.phase = next;
        self.action_of()
    }
}

} // verus!
