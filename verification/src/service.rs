//! The service lifecycle state machine: a service's status is derived from
//! its health-check script's exit code, and the start/stop transitions walk
//! the ordered lifecycle scripts, turning exit codes into typed outcomes.
//!
//! The machine itself never spawns a process: each transition names the
//! script to run next, the caller runs it and hands the exit code back. A
//! caller that cannot obtain an exit code (the spawn itself failed, or the
//! process died without one) reports that as its own engine error instead of
//! feeding the machine.

use vstd::prelude::*;

use crate::manifest::ManifestContent;

verus! {

/// Where a service stands: `Unknown` until the first status query, then one
/// of `Running`, `Stopped` or `Disabled` after every query.
#[derive(Clone, Copy, Debug, PartialEq, Eq, Structural)]
pub enum ServiceStatus {
    Unknown,
    Running,
    Stopped,
    Disabled,
}

impl Default for ServiceStatus {
    /// A freshly loaded service has not been queried yet.
    fn default() -> (r: Self)
        ensures
            r == ServiceStatus::Unknown,
    {
        ServiceStatus::Unknown
    }
}

/// Outcome of the start transition: either every script exited zero, or the
/// phase that failed together with its exit code.
#[derive(Clone, Copy, Debug, PartialEq, Eq, Structural)]
pub enum StartResult {
    Success,
    PreStartFailed(i32),
    StartFailed(i32),
}

/// Outcome of the stop transition: either every configured script exited
/// zero, or the phase that failed together with its exit code.
#[derive(Clone, Copy, Debug, PartialEq, Eq, Structural)]
pub enum StopResult {
    Success,
    StopFailed(i32),
    PostStopFailed(i32),
}

/// Outcome of a bare health-check run: whether the service answered, or the
/// exit code of a check that could not run.
#[derive(Clone, Copy, Debug, PartialEq, Eq, Structural)]
pub enum HealthCheckResult {
    Success(bool),
    RunFailed(i32),
}

/// The runtime view of one service: its name, the status of the last query,
/// and the manifest it was loaded from.
#[derive(Debug, Clone)]
pub struct ServiceInformation {
    pub name: String,
    pub status: ServiceStatus,
    pub manifest: ManifestContent,
}

/// The status a query derives: `Disabled` without ever running the check
/// unless the manifest enables the service, `Running` on exit code zero,
/// `Stopped` on any other.
pub open spec fn spec_status_after(enable: Option<bool>, health_exit: Option<i32>) -> ServiceStatus {
    if enable != Option::Some(true) {
        ServiceStatus::Disabled
    } else if health_exit == Option::Some(0i32) {
        ServiceStatus::Running
    } else {
        ServiceStatus::Stopped
    }
}

/// The phases of the start transition, in the order they run.
#[derive(Clone, Copy, Debug, PartialEq, Eq, Structural)]
pub enum StartPhase {
    PreStart,
    Start,
    Done(StartResult),
}

/// Where the start transition begins: at `pre_start` when the manifest
/// configures one, else directly at `start`.
pub open spec fn spec_start_begin(m: ManifestContent) -> StartPhase {
    if m.scripts.pre_start is Some {
        StartPhase::PreStart
    } else {
        StartPhase::Start
    }
}

/// One start transition step: a non-zero exit ends the transition with the
/// failure of the current phase; a zero exit moves to the next phase.
/// `start` is reached only through a successful `pre_start`.
pub open spec fn spec_start_advance(phase: StartPhase, code: i32) -> StartPhase {
    match phase {
        StartPhase::PreStart => if code != 0 {
            StartPhase::Done(StartResult::PreStartFailed(code))
        } else {
            StartPhase::Start
        },
        StartPhase::Start => if code != 0 {
            StartPhase::Done(StartResult::StartFailed(code))
        } else {
            StartPhase::Done(StartResult::Success)
        },
        StartPhase::Done(r) => StartPhase::Done(r),
    }
}

/// The phases of the stop transition, in the order they run.
#[derive(Clone, Copy, Debug, PartialEq, Eq, Structural)]
pub enum StopPhase {
    Stop,
    PostStop,
    Done(StopResult),
}

/// Where the stop transition begins: at `stop` when configured, else at
/// `post_stop` when configured, else it is already complete — nothing is
/// ever spawned.
pub open spec fn spec_stop_begin(m: ManifestContent) -> StopPhase {
    if m.scripts.stop is Some {
        StopPhase::Stop
    } else if m.scripts.post_stop is Some {
        StopPhase::PostStop
    } else {
        StopPhase::Done(StopResult::Success)
    }
}

/// One stop transition step: a failing `stop` ends the transition at once —
/// `post_stop` is never attempted after it; a successful `stop` moves to
/// `post_stop` only when one is configured.
pub open spec fn spec_stop_advance(m: ManifestContent, phase: StopPhase, code: i32) -> StopPhase {
    match phase {
        StopPhase::Stop => if code != 0 {
            StopPhase::Done(StopResult::StopFailed(code))
        } else if m.scripts.post_stop is Some {
            StopPhase::PostStop
        } else {
            StopPhase::Done(StopResult::Success)
        },
        StopPhase::PostStop => if code != 0 {
            StopPhase::Done(StopResult::PostStopFailed(code))
        } else {
            StopPhase::Done(StopResult::Success)
        },
        StopPhase::Done(r) => StopPhase::Done(r),
    }
}

impl ServiceInformation {
    /// A freshly loaded service: named after its manifest, not yet queried.
    pub fn new(manifest: ManifestContent) -> (r: Self)
        ensures
            r.name@ == manifest.name@,
            r.status == ServiceStatus::Unknown,
            r.manifest == manifest,
    {
        let name = manifest.name.clone();
        ServiceInformation { name, status: ServiceStatus::Unknown, manifest }
    }

    /// The script a status query must run: none at all for a disabled
    /// service, the health-check script for an enabled one.
    pub fn status_query(&self) -> (r: Option<String>)
        ensures
            r is Some <==> self.manifest.enable == Option::Some(true),
            (r matches Some(s) ==> s@ == self.manifest.scripts.health_check@),
    {
        match self.manifest.enable {
            Option::Some(true) => Option::Some(self.manifest.scripts.health_check.clone()),
            _ => Option::None,
        }
    }

    /// Derive the status from the health-check exit code the caller
    /// obtained; a disabled service, whose query runs nothing, is handed no
    /// code and is always `Disabled`.
    pub fn update_status(self, health_exit: Option<i32>) -> (r: Self)
        requires
            health_exit is Some <==> self.manifest.enable == Option::Some(true),
        ensures
            r.name == self.name,
            r.manifest == self.manifest,
            r.status == spec_status_after(self.manifest.enable, health_exit),
    {
        let status = match (self.manifest.enable, health_exit) {
            (Option::Some(true), Option::Some(code)) => if code == 0 {
                ServiceStatus::Running
            } else {
                ServiceStatus::Stopped
            },
            _ => ServiceStatus::Disabled,
        };
        ServiceInformation { status, ..self }
    }

    /// The first phase of the start transition.
    pub fn start_begin(&self) -> (r: StartPhase)
        ensures
            r == spec_start_begin(self.manifest),
    {
        match &self.manifest.scripts.pre_start {
            Option::Some(_) => StartPhase::PreStart,
            Option::None => StartPhase::Start,
        }
    }

    /// The script the given start phase runs; none once the transition is
    /// done.
    pub fn start_script(&self, phase: &StartPhase) -> (r: Option<String>)
        requires
            phase is PreStart ==> self.manifest.scripts.pre_start is Some,
        ensures
            phase is PreStart ==> (r matches Some(s) && Some(s@) == crate::manifest::opt_view(
                self.manifest.scripts.pre_start,
            )),
            phase is Start ==> (r matches Some(s) && s@ == self.manifest.scripts.start@),
            (phase is Done ==> r is None),
    {
        match phase {
            StartPhase::PreStart => match &self.manifest.scripts.pre_start {
                Option::Some(s) => Option::Some(s.clone()),
                Option::None => Option::None,  // unreachable under the precondition
            },
            StartPhase::Start => Option::Some(self.manifest.scripts.start.clone()),
            StartPhase::Done(_) => Option::None,
        }
    }

    /// Advance the start transition on the exit code of the phase's script.
    pub fn start_advance(&self, phase: StartPhase, code: i32) -> (r: StartPhase)
        ensures
            r == spec_start_advance(phase, code),
    {
        match phase {
            StartPhase::PreStart => if code != 0 {
                StartPhase::Done(StartResult::PreStartFailed(code))
            } else {
                StartPhase::Start
            },
            StartPhase::Start => if code != 0 {
                StartPhase::Done(StartResult::StartFailed(code))
            } else {
                StartPhase::Done(StartResult::Success)
            },
            StartPhase::Done(r) => StartPhase::Done(r),
        }
    }

    /// The first phase of the stop transition; `Done(Success)` at once when
    /// neither `stop` nor `post_stop` is configured.
    pub fn stop_begin(&self) -> (r: StopPhase)
        ensures
            r == spec_stop_begin(self.manifest),
    {
        match &self.manifest.scripts.stop {
            Option::Some(_) => StopPhase::Stop,
            Option::None => match &self.manifest.scripts.post_stop {
                Option::Some(_) => StopPhase::PostStop,
                Option::None => StopPhase::Done(StopResult::Success),
            },
        }
    }

    /// The script the given stop phase runs; none once the transition is
    /// done.
    pub fn stop_script(&self, phase: &StopPhase) -> (r: Option<String>)
        requires
            phase is Stop ==> self.manifest.scripts.stop is Some,
            phase is PostStop ==> self.manifest.scripts.post_stop is Some,
        ensures
            phase is Stop ==> (r matches Some(s) && Some(s@) == crate::manifest::opt_view(
                self.manifest.scripts.stop,
            )),
            phase is PostStop ==> (r matches Some(s) && Some(s@) == crate::manifest::opt_view(
                self.manifest.scripts.post_stop,
            )),
            (phase is Done ==> r is None),
    {
        match phase {
            StopPhase::Stop => match &self.manifest.scripts.stop {
                Option::Some(s) => Option::Some(s.clone()),
                Option::None => Option::None,  // unreachable under the precondition
            },
            StopPhase::PostStop => match &self.manifest.scripts.post_stop {
                Option::Some(s) => Option::Some(s.clone()),
                Option::None => Option::None,  // unreachable under the precondition
            },
            StopPhase::Done(_) => Option::None,
        }
    }

    /// Advance the stop transition on the exit code of the phase's script.
    pub fn stop_advance(&self, phase: StopPhase, code: i32) -> (r: StopPhase)
        ensures
            r == spec_stop_advance(self.manifest, phase, code),
    {
        match phase {
            StopPhase::Stop => if code != 0 {
                StopPhase::Done(StopResult::StopFailed(code))
            } else {
                match &self.manifest.scripts.post_stop {
                    Option::Some(_) => StopPhase::PostStop,
                    Option::None => StopPhase::Done(StopResult::Success),
                }
            },
            StopPhase::PostStop => if code != 0 {
                StopPhase::Done(StopResult::PostStopFailed(code))
            } else {
                StopPhase::Done(StopResult::Success)
            },
            StopPhase::Done(r) => StopPhase::Done(r),
        }
    }

    /// A short textual name for the current status, for rendering.
    pub fn status_name(&self) -> (r: &'static str)
        ensures
            self.status is Unknown ==> r@ == "Unknown"@,
            self.status is Running ==> r@ == "Running"@,
            self.status is Stopped ==> r@ == "Stopped"@,
            self.status is Disabled ==> r@ == "Disabled"@,
    {
        match self.status {
            ServiceStatus::Unknown => "Unknown",
            ServiceStatus::Running => "Running",
            ServiceStatus::Stopped => "Stopped",
            ServiceStatus::Disabled => "Disabled",
        }
    }
}

/// A disabled service reports `Disabled` whatever its health check would
/// say, and its status query names no script to run, so the check is never
/// spawned.
pub proof fn lemma_disabled_service_is_disabled(enable: Option<bool>)
    requires
        enable != Option::Some(true),
    ensures
        spec_status_after(enable, Option::None) == ServiceStatus::Disabled,
{
}

/// An enabled service is `Running` exactly on health-check exit zero and
/// `Stopped` on every other exit code.
pub proof fn lemma_enabled_status_follows_exit(code: i32)
    ensures
        code == 0 ==> spec_status_after(Option::Some(true), Option::Some(code))
            == ServiceStatus::Running,
        code != 0 ==> spec_status_after(Option::Some(true), Option::Some(code))
            == ServiceStatus::Stopped,
{
}

/// The phases whose scripts actually run when a driver walks the start
/// transition from `phase`, answering each run with the next exit code of
/// `exits`, in order. A finished transition — and a driver out of planned
/// exits — runs nothing more.
pub open spec fn spec_start_trace(phase: StartPhase, exits: Seq<i32>) -> Seq<StartPhase>
    decreases exits.len(),
{
    if phase is Done || exits.len() == 0 {
        Seq::empty()
    } else {
        seq![phase] + spec_start_trace(spec_start_advance(phase, exits[0]), exits.skip(1))
    }
}

/// The phase such a driver is left in.
pub open spec fn spec_start_outcome(phase: StartPhase, exits: Seq<i32>) -> StartPhase
    decreases exits.len(),
{
    if phase is Done || exits.len() == 0 {
        phase
    } else {
        spec_start_outcome(spec_start_advance(phase, exits[0]), exits.skip(1))
    }
}

/// The same trace for the stop transition, whose steps read the manifest.
pub open spec fn spec_stop_trace(m: ManifestContent, phase: StopPhase, exits: Seq<i32>) -> Seq<
    StopPhase,
>
    decreases exits.len(),
{
    if phase is Done || exits.len() == 0 {
        Seq::empty()
    } else {
        seq![phase] + spec_stop_trace(m, spec_stop_advance(m, phase, exits[0]), exits.skip(1))
    }
}

/// The phase a stop driver is left in.
pub open spec fn spec_stop_outcome(m: ManifestContent, phase: StopPhase, exits: Seq<i32>) -> StopPhase
    decreases exits.len(),
{
    if phase is Done || exits.len() == 0 {
        phase
    } else {
        spec_stop_outcome(m, spec_stop_advance(m, phase, exits[0]), exits.skip(1))
    }
}

/// A failing `pre_start` ends the whole start transition at once: whatever
/// exits the scripts would have delivered after it, only the pre-start
/// script runs — the phase that runs `start` never appears — and the
/// outcome carries the pre-start exit code.
pub proof fn lemma_pre_start_failure_stops_transition(m: ManifestContent, exits: Seq<i32>)
    requires
        m.scripts.pre_start is Some,
        exits.len() >= 1,
        exits[0] != 0,
    ensures
        spec_start_trace(spec_start_begin(m), exits) == seq![StartPhase::PreStart],
        !spec_start_trace(spec_start_begin(m), exits).contains(StartPhase::Start),
        spec_start_outcome(spec_start_begin(m), exits) == StartPhase::Done(
            StartResult::PreStartFailed(exits[0]),
        ),
{
    let p0 = spec_start_begin(m);
    let p1 = spec_start_advance(p0, exits[0]);
    let trace = spec_start_trace(p0, exits);
    assert(p1 == StartPhase::Done(StartResult::PreStartFailed(exits[0])));
    assert(spec_start_trace(p1, exits.skip(1)) =~= Seq::<StartPhase>::empty());
    assert(trace =~= seq![StartPhase::PreStart]);
    assert(forall|i: int| 0 <= i < trace.len() ==> trace[i] != StartPhase::Start);
    assert(spec_start_outcome(p1, exits.skip(1)) == p1);
}

/// Without a `pre_start`, the transition begins at `start` itself, and a
/// failing `start` ends it with `StartFailed` and its exit code; only the
/// start script runs.
pub proof fn lemma_start_failure_without_pre_start(m: ManifestContent, exits: Seq<i32>)
    requires
        m.scripts.pre_start is None,
        exits.len() >= 1,
        exits[0] != 0,
    ensures
        spec_start_trace(spec_start_begin(m), exits) == seq![StartPhase::Start],
        spec_start_outcome(spec_start_begin(m), exits) == StartPhase::Done(
            StartResult::StartFailed(exits[0]),
        ),
{
    let p0 = spec_start_begin(m);
    let p1 = spec_start_advance(p0, exits[0]);
    assert(spec_start_trace(p1, exits.skip(1)) =~= Seq::<StartPhase>::empty());
    assert(spec_start_trace(p0, exits) =~= seq![StartPhase::Start]);
    assert(spec_start_outcome(p1, exits.skip(1)) == p1);
}

/// A failing `stop` ends the whole stop transition at once: only the stop
/// script runs — the phase that runs `post_stop` never appears — and the
/// outcome is `StopFailed` with its exit code.
pub proof fn lemma_stop_failure_skips_post_stop(m: ManifestContent, exits: Seq<i32>)
    requires
        m.scripts.stop is Some,
        exits.len() >= 1,
        exits[0] != 0,
    ensures
        spec_stop_trace(m, spec_stop_begin(m), exits) == seq![StopPhase::Stop],
        !spec_stop_trace(m, spec_stop_begin(m), exits).contains(StopPhase::PostStop),
        spec_stop_outcome(m, spec_stop_begin(m), exits) == StopPhase::Done(
            StopResult::StopFailed(exits[0]),
        ),
{
    let p0 = spec_stop_begin(m);
    let p1 = spec_stop_advance(m, p0, exits[0]);
    let trace = spec_stop_trace(m, p0, exits);
    assert(p1 == StopPhase::Done(StopResult::StopFailed(exits[0])));
    assert(spec_stop_trace(m, p1, exits.skip(1)) =~= Seq::<StopPhase>::empty());
    assert(trace =~= seq![StopPhase::Stop]);
    assert(forall|i: int| 0 <= i < trace.len() ==> trace[i] != StopPhase::PostStop);
    assert(spec_stop_outcome(m, p1, exits.skip(1)) == p1);
}

/// After a successful `stop`, a configured `post_stop` runs, and its
/// failure ends the transition with `PostStopFailed` and its exit code.
pub proof fn lemma_post_stop_failure_is_reported(m: ManifestContent, exits: Seq<i32>)
    requires
        m.scripts.stop is Some,
        m.scripts.post_stop is Some,
        exits.len() >= 2,
        exits[0] == 0,
        exits[1] != 0,
    ensures
        spec_stop_trace(m, spec_stop_begin(m), exits) == seq![StopPhase::Stop, StopPhase::PostStop],
        spec_stop_outcome(m, spec_stop_begin(m), exits) == StopPhase::Done(
            StopResult::PostStopFailed(exits[1]),
        ),
{
    let p0 = spec_stop_begin(m);
    let p1 = spec_stop_advance(m, p0, exits[0]);
    let rest = exits.skip(1);
    assert(p1 == StopPhase::PostStop);
    assert(rest[0] == exits[1]);
    let p2 = spec_stop_advance(m, p1, rest[0]);
    assert(p2 == StopPhase::Done(StopResult::PostStopFailed(exits[1])));
    assert(spec_stop_trace(m, p2, rest.skip(1)) =~= Seq::<StopPhase>::empty());
    assert(spec_stop_trace(m, p1, rest) =~= seq![StopPhase::PostStop]);
    assert(spec_stop_trace(m, p0, exits) =~= seq![StopPhase::Stop, StopPhase::PostStop]);
    assert(spec_stop_outcome(m, p0, exits) == spec_stop_outcome(m, p1, rest));
    assert(spec_stop_outcome(m, p1, rest) == spec_stop_outcome(m, p2, rest.skip(1)));
    assert(spec_stop_outcome(m, p2, rest.skip(1)) == p2);
}

/// With neither `stop` nor `post_stop` configured, the stop transition is
/// complete before it starts: whatever exits a driver holds ready, it
/// spawns nothing and the outcome is `Success`.
pub proof fn lemma_stop_with_nothing_configured_succeeds(m: ManifestContent, exits: Seq<i32>)
    requires
        m.scripts.stop is None,
        m.scripts.post_stop is None,
    ensures
        spec_stop_begin(m) == StopPhase::Done(StopResult::Success),
        spec_stop_trace(m, spec_stop_begin(m), exits) == Seq::<StopPhase>::empty(),
        spec_stop_outcome(m, spec_stop_begin(m), exits) == StopPhase::Done(StopResult::Success),
{
    assert(spec_stop_trace(m, spec_stop_begin(m), exits) =~= Seq::<StopPhase>::empty());
}

} // verus!
