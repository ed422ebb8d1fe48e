//! The service supervisor: readiness of the inference backend.
//!
//! The supervisor is a state machine over probe outcomes. A first health
//! probe that succeeds settles readiness at once; otherwise the backend is
//! launched once and then polled at a fixed interval, at most a fixed number
//! of times. The first successful probe terminates the loop; exhausting the
//! bound fails. This is the system's only retry logic: fixed interval, fixed
//! bound, no backoff. The caller performs the probes and the launch and
//! reports each outcome; every decision is made here.

use vstd::prelude::*;

use crate::config::PipelineConfig;
use crate::errors::ServiceError;

verus! {

/// Readiness of the inference backend, held for one invocation only.
#[derive(Clone, Copy, Debug, PartialEq, Eq, Structural)]
pub enum ServiceState {
    /// No probe has settled anything yet.
    Unknown,
    /// The backend was launched and is being polled.
    Starting,
    /// A probe succeeded.
    Ready,
    /// The launch failed, or every probe of the bounded loop failed.
    Failed,
}

pub struct ServiceSupervisor {
    pub state: ServiceState,
    /// Probes spent inside the bounded polling loop.
    pub probes_used: u32,
    /// Bound on the polling loop.
    pub max_probes: u32,
    /// Seconds the caller must wait between two poll probes.
    pub poll_interval_secs: u64,
}

impl ServiceSupervisor {
    pub open spec fn wf(self) -> bool {
        &&& self.probes_used <= self.max_probes
        &&& (self.state is Starting ==> self.probes_used < self.max_probes)
        &&& (self.state is Unknown ==> self.probes_used == 0)
    }

    pub fn new(config: &PipelineConfig) -> (s: ServiceSupervisor)
        requires
            config.poll_attempts > 0,
        ensures
            s.wf(),
            s.state is Unknown,
            s.probes_used == 0,
            s.max_probes == config.poll_attempts,
            s.poll_interval_secs == config.poll_interval_secs,
    {
        ServiceSupervisor {
            state: ServiceState::Unknown,
            probes_used: 0,
            max_probes: config.poll_attempts,
            poll_interval_secs: config.poll_interval_secs,
        }
    }

    /// Outcome of the initial health probe. Success settles readiness at
    /// once — repeated calls of the whole procedure are cheap no-ops — and
    /// failure asks the caller for the single backend launch.
    pub fn record_initial_probe(&mut self, ok: bool) -> (launch_due: bool)
        requires
            old(self).wf(),
            old(self).state is Unknown,
        ensures
            final(self).wf(),
            ok ==> final(self).state is Ready && !launch_due,
            !ok ==> final(self).state is Unknown && launch_due,
            final(self).probes_used == old(self).probes_used,
            final(self).max_probes == old(self).max_probes,
            final(self).poll_interval_secs == old(self).poll_interval_secs,
    {
        if ok {
            self.state = ServiceState::Ready;
            false
        } else {
            true
        }
    }

    /// Outcome of the single launch attempt: polling begins only when the
    /// process could be spawned at all.
    pub fn record_launch(&mut self, ok: bool)
        requires
            old(self).wf(),
            old(self).state is Unknown,
            old(self).max_probes > 0,
        ensures
            final(self).wf(),
            ok ==> final(self).state is Starting,
            !ok ==> final(self).state is Failed,
            final(self).probes_used == old(self).probes_used,
            final(self).max_probes == old(self).max_probes,
            final(self).poll_interval_secs == old(self).poll_interval_secs,
    {
        if ok {
            self.state = ServiceState::Starting;
        } else {
            self.state = ServiceState::Failed;
        }
    }

    /// The supervisor after one poll probe with outcome `ok`.
    pub open spec fn probe_step_spec(self, ok: bool) -> ServiceSupervisor {
        if ok {
            ServiceSupervisor { state: ServiceState::Ready, probes_used: (self.probes_used + 1) as u32, ..self }
        } else if self.probes_used + 1 == self.max_probes {
            ServiceSupervisor { state: ServiceState::Failed, probes_used: (self.probes_used + 1) as u32, ..self }
        } else {
            ServiceSupervisor { state: ServiceState::Starting, probes_used: (self.probes_used + 1) as u32, ..self }
        }
    }

    /// Outcome of one poll probe: success terminates the loop at once;
    /// failure either continues the loop or, on the last permitted probe,
    /// fails the supervisor.
    pub fn record_probe(&mut self, ok: bool)
        requires
            old(self).wf(),
            old(self).state is Starting,
        ensures
            final(self).wf(),
            *final(self) == old(self).probe_step_spec(ok),
    {
        self.probes_used = self.probes_used + 1;
        if ok {
            self.state = ServiceState::Ready;
        } else if self.probes_used == self.max_probes {
            self.state = ServiceState::Failed;
        }
    }

    /// The settled verdict, once the supervisor is no longer probing.
    pub fn outcome(&self) -> (r: Option<Result<(), ServiceError>>)
        ensures
            self.state is Ready ==> r == Some(Ok::<(), ServiceError>(())),
            self.state is Failed ==> r == Some(
                Err::<(), ServiceError>(ServiceError::ServiceUnavailable),
            ),
            self.state is Unknown || self.state is Starting ==> r is None,
    {
        match self.state {
            ServiceState::Ready => Some(Ok(())),
            ServiceState::Failed => Some(Err(ServiceError::ServiceUnavailable)),
            _ => None,
        }
    }
}

/// The supervisor after consuming poll outcomes in order, stopping as soon
/// as it leaves the `Starting` state.
pub open spec fn run_probes_spec(s: ServiceSupervisor, outcomes: Seq<bool>) -> ServiceSupervisor
    decreases outcomes.len(),
{
    if outcomes.len() == 0 || !(s.state is Starting) {
        s
    } else {
        run_probes_spec(s.probe_step_spec(outcomes[0]), outcomes.skip(1))
    }
}

/// Index of the first successful outcome, or -1 when none succeeds.
pub open spec fn first_success(outcomes: Seq<bool>) -> int
    decreases outcomes.len(),
{
    if outcomes.len() == 0 {
        -1
    } else if outcomes[0] {
        0
    } else {
        let r = first_success(outcomes.skip(1));
        if r < 0 {
            -1
        } else {
            r + 1
        }
    }
}

/// `first_success` is what its name says: when nonnegative it indexes a
/// successful outcome preceded by failures only, and it is negative exactly
/// when every outcome fails.
pub proof fn lemma_first_success_characterizes(outcomes: Seq<bool>)
    ensures
        first_success(outcomes) >= 0 ==> 0 <= first_success(outcomes) < outcomes.len()
            && outcomes[first_success(outcomes)] && (forall|j: int|
            0 <= j < first_success(outcomes) ==> !outcomes[j]),
        first_success(outcomes) < 0 ==> (forall|j: int| 0 <= j < outcomes.len() ==> !outcomes[j]),
    decreases outcomes.len(),
{
    if outcomes.len() > 0 && !outcomes[0] {
        lemma_first_success_characterizes(outcomes.skip(1));
        let fs = first_success(outcomes);
        if fs >= 0 {
            assert forall|j: int| 0 <= j < fs implies !outcomes[j] by {
                if j > 0 {
                    assert(!outcomes.skip(1)[j - 1]);
                }
            }
        } else {
            assert forall|j: int| 0 <= j < outcomes.len() implies !outcomes[j] by {
                if j > 0 {
                    assert(!outcomes.skip(1)[j - 1]);
                }
            }
        }
    }
}

/// The readiness loop performs at most `max_probes` probes and terminates
/// on the first success: polling from a `Starting` supervisor ends `Ready`
/// exactly when a probe within the remaining budget succeeds, having spent
/// one probe per failed attempt before it; it ends `Failed` exactly when
/// the budget is exhausted without success; and it never spends more
/// probes than the bound or than there are outcomes.
pub proof fn lemma_readiness_loop(s: ServiceSupervisor, outcomes: Seq<bool>)
    requires
        s.wf(),
        s.state is Starting,
    ensures
        ({
            let f = run_probes_spec(s, outcomes);
            let budget = s.max_probes - s.probes_used;
            let fs = first_success(outcomes);
            &&& f.wf()
            &&& s.probes_used <= f.probes_used <= s.max_probes
            &&& f.probes_used - s.probes_used <= outcomes.len()
            &&& ((0 <= fs < budget) ==> f.state is Ready && f.probes_used == s.probes_used + fs
                + 1)
            &&& (!(0 <= fs < budget) && outcomes.len() >= budget ==> f.state is Failed
                && f.probes_used == s.max_probes)
            &&& (!(0 <= fs < budget) && outcomes.len() < budget ==> f.state is Starting
                && f.probes_used == s.probes_used + outcomes.len())
        }),
    decreases outcomes.len(),
{
    if outcomes.len() == 0 {
    } else {
        let s1 = s.probe_step_spec(outcomes[0]);
        if outcomes[0] {
            assert(run_probes_spec(s1, outcomes.skip(1)) == s1);
        } else if s.probes_used + 1 == s.max_probes {
            assert(run_probes_spec(s1, outcomes.skip(1)) == s1);
        } else {
            lemma_readiness_loop(s1, outcomes.skip(1));
        }
    }
}

} // verus!
