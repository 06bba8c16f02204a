//! Lifecycle supervision of the out-of-process signing engine.
//!
//! The supervisor owns the engine process exclusively and serializes
//! every lifecycle transition through an explicit state machine:
//! `Stopped -> Starting -> Healthy`, with `Starting`/`Healthy` dropping to
//! `Degraded` on a failed probe, a failed launch or an abnormal exit, and
//! `Degraded -> Starting` on a rate-limited restart attempt.  `stop` always
//! ends in `Stopped`, releases the process handle, and is idempotent.
//!
//! The supervisor itself performs no I/O.  Each operation returns a
//! directive — spawn a process, terminate this handle — which the shell
//! around the library carries out, reporting the outcome back through the
//! `on_*` operations.  Every transition is mirrored by a specification
//! function, so properties of whole call sequences are stated and proved
//! over those functions.

use vstd::prelude::*;
use crate::backoff::spec_backoff_delay;
use crate::backoff::backoff_delay;

verus! {

/// Lifecycle states of the signing engine, as the supervisor tracks them.
#[derive(Clone, Copy, PartialEq, Eq, Structural, Debug)]
pub enum LifecycleState {
    Stopped,
    Starting,
    Healthy,
    Degraded,
    Stopping,
}

/// Restart rate-limiting: attempts are spaced by `base_delay_ms` doubling
/// up to `max_delay_ms`, and at most `max_attempts` restarts are tried
/// before the supervisor stays `Degraded` until the next explicit `start`.
#[derive(Clone, Copy, PartialEq, Eq, Structural, Debug)]
pub struct RestartPolicy {
    pub base_delay_ms: u64,
    pub max_delay_ms: u64,
    pub max_attempts: u64,
}

/// The supervisor's state: lifecycle phase, the handle of the live engine
/// process (if any), failure counters and the restart schedule.
#[derive(Clone, Copy, PartialEq, Eq, Structural, Debug)]
pub struct Supervisor {
    pub state: LifecycleState,
    /// Handle of the one live engine process, owned exclusively here.
    pub process: Option<u64>,
    /// Abnormal exits and failed probes seen since the last healthy probe.
    pub consecutive_failures: u64,
    /// Restart attempts spent from the current budget.
    pub restart_attempts: u64,
    /// Earliest instant at which the next restart may be attempted.
    pub next_restart_at_ms: u64,
    pub policy: RestartPolicy,
}

/// `a + b`, saturated at the largest representable value.
pub open spec fn spec_sat_add(a: u64, b: u64) -> u64 {
    if a + b > u64::MAX {
        u64::MAX
    } else {
        (a + b) as u64
    }
}

/// An event the restart rate-limiting lemma ranges over: an abnormal
/// engine exit, or a restart poll, each at some instant.
#[derive(Clone, Copy, PartialEq, Eq, Structural, Debug)]
pub enum SupervisorEvent {
    Crash { now_ms: u64 },
    Poll { now_ms: u64 },
}

impl Supervisor {
    /// A process handle is held only while the engine is starting or
    /// healthy, and the restart budget is never overdrawn.
    pub open spec fn wf(self) -> bool {
        &&& (self.process is Some ==> self.state is Starting || self.state is Healthy)
        &&& (self.state is Healthy ==> self.process is Some)
        &&& self.restart_attempts <= self.policy.max_attempts
    }

    /// `start`: from `Stopped`, move to `Starting` with a fresh failure
    /// and restart budget, directing the caller to spawn the engine.
    /// In any other state, do nothing.
    pub open spec fn spec_start(self) -> (Supervisor, bool) {
        if self.state is Stopped {
            (
                Supervisor {
                    state: LifecycleState::Starting,
                    consecutive_failures: 0,
                    restart_attempts: 0,
                    next_restart_at_ms: 0,
                    ..self
                },
                true,
            )
        } else {
            (self, false)
        }
    }

    /// The engine process was spawned: record its handle.
    pub open spec fn spec_on_spawned(self, handle: u64) -> Supervisor {
        if self.state is Starting && self.process is None {
            Supervisor { process: Some(handle), ..self }
        } else {
            self
        }
    }

    /// The engine could not be launched: degrade and schedule a restart.
    pub open spec fn spec_on_launch_failed(self, now_ms: u64) -> Supervisor {
        if self.state is Starting && self.process is None {
            self.degrade(now_ms)
        } else {
            self
        }
    }

    /// A readiness or liveness probe succeeded: the engine is healthy and
    /// both the failure count and the restart budget are reset.
    pub open spec fn spec_on_probe_ok(self) -> Supervisor {
        if (self.state is Starting || self.state is Healthy) && self.process is Some {
            Supervisor {
                state: LifecycleState::Healthy,
                consecutive_failures: 0,
                restart_attempts: 0,
                ..self
            }
        } else {
            self
        }
    }

    /// Common degradation step: count the failure and schedule the next
    /// restart attempt after the current backoff delay.
    pub open spec fn degrade(self, now_ms: u64) -> Supervisor {
        Supervisor {
            state: LifecycleState::Degraded,
            process: None,
            consecutive_failures: spec_sat_add(self.consecutive_failures, 1),
            next_restart_at_ms: spec_sat_add(
                now_ms,
                spec_backoff_delay(
                    self.policy.base_delay_ms,
                    self.policy.max_delay_ms,
                    self.restart_attempts as nat,
                ),
            ),
            ..self
        }
    }

    /// A probe failed while the engine was starting or healthy: degrade,
    /// handing the stale process handle back for termination.
    pub open spec fn spec_on_probe_failed(self, now_ms: u64) -> (Supervisor, Option<u64>) {
        if self.state is Starting || self.state is Healthy {
            (self.degrade(now_ms), self.process)
        } else {
            (self, None)
        }
    }

    /// The engine process exited abnormally: degrade; there is no live
    /// handle left to terminate.
    pub open spec fn spec_on_process_exit(self, now_ms: u64) -> Supervisor {
        if self.state is Starting || self.state is Healthy {
            Supervisor { process: None, ..self }.degrade(now_ms)
        } else {
            self
        }
    }

    /// Restart poll: while `Degraded`, once the backoff delay has passed
    /// and budget remains, spend one attempt and direct a spawn.
    pub open spec fn spec_poll_restart(self, now_ms: u64) -> (Supervisor, bool) {
        if self.state is Degraded && self.restart_attempts < self.policy.max_attempts
            && now_ms >= self.next_restart_at_ms {
            (
                Supervisor {
                    state: LifecycleState::Starting,
                    restart_attempts: (self.restart_attempts + 1) as u64,
                    ..self
                },
                true,
            )
        } else {
            (self, false)
        }
    }

    /// First half of `stop`: release the process handle for graceful
    /// termination and move to `Stopping`.  A no-op when already stopped.
    pub open spec fn spec_begin_stop(self) -> (Supervisor, Option<u64>) {
        if self.state is Stopped {
            (self, None)
        } else {
            (Supervisor { state: LifecycleState::Stopping, process: None, ..self }, self.process)
        }
    }

    /// Second half of `stop`: the grace period has elapsed and the
    /// process is gone; rest in `Stopped`.
    pub open spec fn spec_finish_stop(self) -> Supervisor {
        if self.state is Stopping {
            Supervisor { state: LifecycleState::Stopped, ..self }
        } else {
            self
        }
    }

    /// The whole `stop` operation.
    pub open spec fn spec_stop(self) -> Supervisor {
        self.spec_begin_stop().0.spec_finish_stop()
    }

    /// One step of the restart rate-limiting model; the flag says whether
    /// the step directed a spawn.
    pub open spec fn spec_step(self, e: SupervisorEvent) -> (Supervisor, bool) {
        match e {
            SupervisorEvent::Crash { now_ms } => (self.spec_on_process_exit(now_ms), false),
            SupervisorEvent::Poll { now_ms } => self.spec_poll_restart(now_ms),
        }
    }

    /// How many spawns a sequence of crash and poll events directs.
    pub open spec fn spec_spawn_count(self, evs: Seq<SupervisorEvent>) -> nat
        decreases evs.len(),
    {
        if evs.len() == 0 {
            0
        } else {
            let (s2, spawned) = self.spec_step(evs[0]);
            (if spawned {
                1nat
            } else {
                0nat
            }) + s2.spec_spawn_count(evs.drop_first())
        }
    }

    /// A supervisor at rest: stopped, no process, full restart budget.
    pub fn new(policy: RestartPolicy) -> (r: Supervisor)
        ensures
            r.wf(),
            r.state is Stopped,
            r.process is None,
            r.consecutive_failures == 0,
            r.restart_attempts == 0,
            r.policy == policy,
    {
        Supervisor {
            state: LifecycleState::Stopped,
            process: None,
            consecutive_failures: 0,
            restart_attempts: 0,
            next_restart_at_ms: 0,
            policy,
        }
    }

    /// Non-blocking status read used by the signature service.
    pub fn is_healthy(&self) -> (r: bool)
        ensures
            r == (self.state is Healthy),
    {
        matches!(self.state, LifecycleState::Healthy)
    }

    /// Begin starting the engine.  Returns true when the caller must now
    /// spawn the engine process and report back through `on_spawned` or
    /// `on_launch_failed`; a spawn is directed only while no handle is
    /// held.
    pub fn start(&mut self) -> (r: bool)
        requires
            old(self).wf(),
        ensures
            final(self).wf(),
            (*final(self), r) == old(self).spec_start(),
            r ==> final(self).process is None,
    {
        match self.state {
            LifecycleState::Stopped => {
                self.state = LifecycleState::Starting;
                self.consecutive_failures = 0;
                self.restart_attempts = 0;
                self.next_restart_at_ms = 0;
                true
            },
            _ => false,
        }
    }

    /// Record the handle of the process just spawned for this start.
    pub fn on_spawned(&mut self, handle: u64)
        requires
            old(self).wf(),
        ensures
            final(self).wf(),
            *final(self) == old(self).spec_on_spawned(handle),
    {
        if matches!(self.state, LifecycleState::Starting) && self.process.is_none() {
            self.process = Some(handle);
        }
    }

    /// Record that the engine executable could not be launched.
    pub fn on_launch_failed(&mut self, now_ms: u64)
        requires
            old(self).wf(),
        ensures
            final(self).wf(),
            *final(self) == old(self).spec_on_launch_failed(now_ms),
    {
        if matches!(self.state, LifecycleState::Starting) && self.process.is_none() {
            self.do_degrade(now_ms);
        }
    }

    /// Record a successful readiness or liveness probe.
    pub fn on_probe_ok(&mut self)
        requires
            old(self).wf(),
        ensures
            final(self).wf(),
            *final(self) == old(self).spec_on_probe_ok(),
    {
        let live = matches!(self.state, LifecycleState::Starting)
            || matches!(self.state, LifecycleState::Healthy);
        if live && self.process.is_some() {
            self.state = LifecycleState::Healthy;
            self.consecutive_failures = 0;
            self.restart_attempts = 0;
        }
    }

    /// Record a failed probe.  Returns the handle of the now-distrusted
    /// process, which the caller must terminate.
    pub fn on_probe_failed(&mut self, now_ms: u64) -> (r: Option<u64>)
        requires
            old(self).wf(),
        ensures
            final(self).wf(),
            (*final(self), r) == old(self).spec_on_probe_failed(now_ms),
            final(self).process is None || final(self).state == old(self).state,
    {
        let live = matches!(self.state, LifecycleState::Starting)
            || matches!(self.state, LifecycleState::Healthy);
        if live {
            let handle = self.process;
            self.do_degrade(now_ms);
            handle
        } else {
            None
        }
    }

    /// Record that the engine process exited abnormally.
    pub fn on_process_exit(&mut self, now_ms: u64)
        requires
            old(self).wf(),
        ensures
            final(self).wf(),
            *final(self) == old(self).spec_on_process_exit(now_ms),
    {
        let live = matches!(self.state, LifecycleState::Starting)
            || matches!(self.state, LifecycleState::Healthy);
        if live {
            self.process = None;
            self.do_degrade(now_ms);
        }
    }

    /// Poll the restart schedule.  Returns true when the caller must now
    /// spawn the engine process again; a spawn is directed only while no
    /// handle is held, and never more often than the restart budget
    /// allows.
    pub fn poll_restart(&mut self, now_ms: u64) -> (r: bool)
        requires
            old(self).wf(),
        ensures
            final(self).wf(),
            (*final(self), r) == old(self).spec_poll_restart(now_ms),
            r ==> final(self).process is None,
    {
        if matches!(self.state, LifecycleState::Degraded)
            && self.restart_attempts < self.policy.max_attempts
            && now_ms >= self.next_restart_at_ms {
            self.state = LifecycleState::Starting;
            self.restart_attempts = self.restart_attempts + 1;
            true
        } else {
            false
        }
    }

    /// Begin stopping.  Returns the handle the caller must terminate
    /// gracefully, waiting up to the grace period before killing.
    /// A no-op returning nothing when already stopped.
    pub fn begin_stop(&mut self) -> (r: Option<u64>)
        requires
            old(self).wf(),
        ensures
            final(self).wf(),
            (*final(self), r) == old(self).spec_begin_stop(),
            final(self).process is None,
    {
        if matches!(self.state, LifecycleState::Stopped) {
            None
        } else {
            let handle = self.process;
            self.state = LifecycleState::Stopping;
            self.process = None;
            handle
        }
    }

    /// Finish stopping once the process is confirmed gone.
    pub fn finish_stop(&mut self)
        requires
            old(self).wf(),
        ensures
            final(self).wf(),
            *final(self) == old(self).spec_finish_stop(),
            old(self).state is Stopping ==> final(self).state is Stopped,
            final(self).process == old(self).process,
    {
        if matches!(self.state, LifecycleState::Stopping) {
            self.state = LifecycleState::Stopped;
        }
    }

    /// Degrade in place: count the failure and schedule the next restart.
    fn do_degrade(&mut self, now_ms: u64)
        ensures
            *final(self) == old(self).degrade(now_ms),
    {
        self.state = LifecycleState::Degraded;
        self.process = None;
        self.consecutive_failures = if self.consecutive_failures < u64::MAX {
            self.consecutive_failures + 1
        } else {
            u64::MAX
        };
        let delay = backoff_delay(
            self.policy.base_delay_ms,
            self.policy.max_delay_ms,
            self.restart_attempts,
        );
        self.next_restart_at_ms = if now_ms <= u64::MAX - delay {
            now_ms + delay
        } else {
            u64::MAX
        };
    }
}

/// Stopping is idempotent: one `stop` ends in `Stopped`, a second `stop`
/// changes nothing and releases no process.
pub proof fn lemma_stop_idempotent(s: Supervisor)
    ensures
        s.spec_stop().state is Stopped,
        s.spec_stop().spec_stop() == s.spec_stop(),
        s.spec_stop().spec_begin_stop().1 is None,
{
}

/// At most one engine process is ever live: `stop` hands the only held
/// handle back for termination and retains none, and a subsequent `start`
/// directs its spawn only from that handle-free state.
pub proof fn lemma_stop_then_start_single_process(s: Supervisor)
    requires
        s.wf(),
    ensures
        s.spec_begin_stop().0.process is None,
        s.spec_stop().process is None,
        s.spec_stop().spec_start().0.process is None,
        s.spec_begin_stop().1 == (if s.state is Stopped {
            Option::<u64>::None
        } else {
            s.process
        }),
{
}

/// Restart attempts are rate-limited: over any sequence of crashes and
/// restart polls — with no intervening explicit `start` — the number of
/// spawns directed never exceeds the remaining restart budget.
pub proof fn lemma_restarts_bounded(s: Supervisor, evs: Seq<SupervisorEvent>)
    requires
        s.restart_attempts <= s.policy.max_attempts,
    ensures
        s.spec_spawn_count(evs) <= s.policy.max_attempts - s.restart_attempts,
    decreases evs.len(),
{
    if evs.len() > 0 {
        let (s2, spawned) = s.spec_step(evs[0]);
        lemma_restarts_bounded(s2, evs.drop_first());
    }
}

} // verus!
