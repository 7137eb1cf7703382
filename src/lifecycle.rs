use vstd::prelude::*;
use crate::config::{apply_patch, is_idle, VergeConfig, VergePatch};
use crate::manager::{finishes, next_ok, opt_text, start_ok, tag_service, Action, Event, Phase, PrivilegeManager, Probe, Route, Step};
use crate::operation::{is_disabling, PrivilegedOperation, ServiceStatus};
use crate::service_handler::is_supported;

verus! {

/// A complete or partial run of `op`: `steps[0]` is the first step, and each
/// `events[i]` answers `steps[i]`, which asked for outside work.
pub open spec fn is_run(
    op: PrivilegedOperation,
    has_service: bool,
    phases: Seq<Phase>,
    events: Seq<Event>,
    steps: Seq<Step>,
) -> bool {
    &&& phases.len() == events.len() + 1
    &&& steps.len() == phases.len()
    &&& start_ok(op, has_service, phases[0], steps[0])
    &&& forall|i: int|
        0 <= i < events.len() ==> {
            &&& #[trigger] steps[i] is Perform
            &&& next_ok(op, phases[i], events[i], phases[i + 1], steps[i + 1])
        }
}

/// The phases that a run of a disabling request can be in.
pub open spec fn disable_phase(ph: Phase) -> bool {
    match ph {
        Phase::ProbeConnection(p) => p == Probe::First,
        Phase::ProbeStatus(p) => p == Probe::First,
        Phase::DirectPatch => true,
        Phase::IdleCheck => true,
        Phase::Stopping => true,
        Phase::Finished => true,
        Phase::ExecPatch(r) => r == Route::Disable,
        Phase::ExecStatus(r) => r == Route::Disable,
        Phase::ExecStart(r) => r == Route::Disable,
        _ => false,
    }
}

proof fn lemma_disable_step(op: PrivilegedOperation, ph: Phase, ev: Event, ph2: Phase, s: Step)
    requires
        is_disabling(op),
        disable_phase(ph),
        next_ok(op, ph, ev, ph2, s),
    ensures
        disable_phase(ph2),
        ph2 == Phase::Stopping ==> ph == Phase::IdleCheck,
        finishes(s, true, None, tag_service()) ==> ph == Phase::IdleCheck || ph == Phase::Stopping,
{
}

proof fn lemma_disable_run(
    op: PrivilegedOperation,
    has_service: bool,
    phases: Seq<Phase>,
    events: Seq<Event>,
    steps: Seq<Step>,
    k: int,
)
    requires
        is_disabling(op),
        is_run(op, has_service, phases, events, steps),
        0 <= k < phases.len(),
    ensures
        disable_phase(phases[k]),
        phases[k] == Phase::Stopping ==> k >= 1 && phases[k - 1] == Phase::IdleCheck,
    decreases k,
{
    if k > 0 {
        lemma_disable_run(op, has_service, phases, events, steps, k - 1);
        assert(steps[k - 1] is Perform);
        lemma_disable_step(op, phases[k - 1], events[k - 1], phases[k], steps[k]);
    }
}

/// A disabling request that the service carried out checks afterwards
/// whether any service-gated feature is still on, and stops the service when
/// the configuration read then shows both the system proxy and TUN mode off.
pub proof fn lemma_disable_stops_idle_service(
    op: PrivilegedOperation,
    has_service: bool,
    phases: Seq<Phase>,
    events: Seq<Event>,
    steps: Seq<Step>,
)
    requires
        is_disabling(op),
        is_run(op, has_service, phases, events, steps),
        finishes(steps.last(), true, None, tag_service()),
    ensures
        exists|i: int|
            0 <= i < events.len() && #[trigger] phases[i] == Phase::IdleCheck && match events[i] {
                Event::Config(c) => is_idle(c) ==> steps[i + 1] == Step::Perform(Action::Stop),
                _ => false,
            },
{
    let n = events.len() as int;
    if n == 0 {
        assert(start_ok(op, has_service, phases[0], steps[0]));
        assert(false);
    }
    assert(steps[n - 1] is Perform);
    lemma_disable_run(op, has_service, phases, events, steps, n - 1);
    lemma_disable_step(op, phases[n - 1], events[n - 1], phases[n], steps[n]);
    let i = if phases[n - 1] == Phase::IdleCheck { n - 1 } else { n - 2 };
    assert(steps[i] is Perform);
    assert(phases[i] == Phase::IdleCheck);
}

proof fn lemma_after_stop(
    op: PrivilegedOperation,
    has_service: bool,
    phases: Seq<Phase>,
    events: Seq<Event>,
    steps: Seq<Step>,
    i: int,
    k: int,
)
    requires
        is_run(op, has_service, phases, events, steps),
        0 <= i < k < phases.len(),
        phases[i] == Phase::Stopping,
    ensures
        phases[k] == Phase::Finished,
        steps[k] is Finish,
    decreases k - i,
{
    if k > i + 1 {
        lemma_after_stop(op, has_service, phases, events, steps, i, k - 1);
        assert(steps[k - 1] is Perform);
    } else {
        assert(steps[i] is Perform);
        assert(next_ok(op, phases[i], events[i], phases[k], steps[k]));
    }
}

/// Within one run the service is asked to stop at most once: a stop leads
/// only to the final result.
pub proof fn lemma_stop_at_most_once(
    op: PrivilegedOperation,
    has_service: bool,
    phases: Seq<Phase>,
    events: Seq<Event>,
    steps: Seq<Step>,
    i: int,
    j: int,
)
    requires
        is_run(op, has_service, phases, events, steps),
        0 <= i < steps.len(),
        0 <= j < steps.len(),
        steps[i] == Step::Perform(Action::Stop),
        steps[j] == Step::Perform(Action::Stop),
    ensures
        i == j,
{
    assert forall|k: int| 0 <= k < steps.len() && steps[k] == Step::Perform(Action::Stop) implies phases[k]
        == Phase::Stopping by {
        if k > 0 {
            assert(steps[k - 1] is Perform);
            assert(next_ok(op, phases[k - 1], events[k - 1], phases[k], steps[k]));
        } else {
            assert(start_ok(op, has_service, phases[0], steps[0]));
        }
    }
    if i < j {
        lemma_after_stop(op, has_service, phases, events, steps, i, j);
    } else if j < i {
        lemma_after_stop(op, has_service, phases, events, steps, j, i);
    }
}

/// An answer from a service that is connected and running throughout.
pub open spec fn steady_event(ev: Event) -> bool {
    match ev {
        Event::Connection(b) => b,
        Event::Status(st) => st == Some(ServiceStatus::Running),
        _ => true,
    }
}

/// The phases that an enabling run against a running service can be in.
pub open spec fn steady_phase(ph: Phase) -> bool {
    match ph {
        Phase::ProbeConnection(p) => p == Probe::First,
        Phase::ProbeStatus(p) => p == Probe::First,
        Phase::ExecPatch(r) => r == Route::Enable,
        Phase::ExecStatus(r) => r == Route::Enable,
        Phase::Finished => true,
        _ => false,
    }
}

pub open spec fn starts_service(s: Step) -> bool {
    s == Step::Perform(Action::Install) || s == Step::Perform(Action::Start)
}

proof fn lemma_steady_run(
    op: PrivilegedOperation,
    has_service: bool,
    phases: Seq<Phase>,
    events: Seq<Event>,
    steps: Seq<Step>,
    k: int,
)
    requires
        !is_disabling(op),
        is_run(op, has_service, phases, events, steps),
        forall|i: int| 0 <= i < events.len() ==> steady_event(#[trigger] events[i]),
        0 <= k < phases.len(),
    ensures
        steady_phase(phases[k]),
        !starts_service(steps[k]),
    decreases k,
{
    if k > 0 {
        lemma_steady_run(op, has_service, phases, events, steps, k - 1);
        assert(steps[k - 1] is Perform);
        assert(steady_event(events[k - 1]));
        assert(next_ok(op, phases[k - 1], events[k - 1], phases[k], steps[k]));
    }
}

/// An enabling request on a service that is connected and reports `Running`
/// at every probe never installs or starts the service.
pub proof fn lemma_running_service_is_not_started(
    op: PrivilegedOperation,
    has_service: bool,
    phases: Seq<Phase>,
    events: Seq<Event>,
    steps: Seq<Step>,
)
    requires
        !is_disabling(op),
        is_run(op, has_service, phases, events, steps),
        forall|i: int| 0 <= i < events.len() ==> steady_event(#[trigger] events[i]),
    ensures
        forall|k: int| 0 <= k < steps.len() ==> !starts_service(#[trigger] steps[k]),
{
    assert forall|k: int| 0 <= k < steps.len() implies !starts_service(#[trigger] steps[k]) by {
        lemma_steady_run(op, has_service, phases, events, steps, k);
    }
}

/// A step that ends a run with a failure.
pub open spec fn silent_failure(s: Step) -> bool {
    match s {
        Step::Finish(r) => !r.success && match opt_text(r.message) {
            Some(m) => m.len() == 0,
            None => true,
        },
        _ => false,
    }
}

/// No step of a run, first or later, fails without a readable message.
pub proof fn lemma_failures_are_explained(
    op: PrivilegedOperation,
    has_service: bool,
    ph: Phase,
    ev: Event,
    ph2: Phase,
    s: Step,
)
    ensures
        start_ok(op, has_service, ph2, s) ==> !silent_failure(s),
        next_ok(op, ph, ev, ph2, s) ==> !silent_failure(s),
{
    reveal_strlit("operation not supported by the service");
    reveal_strlit("operation failed: ");
    reveal_strlit("service started but the operation failed: ");
    reveal_strlit("service still unavailable after setup");
    reveal_strlit("could not start the privileged service; install it manually or check permissions: ");
    reveal_strlit("could not read the service status");
    reveal_strlit("configuration update failed: ");
    reveal_strlit("unexpected response to the last action");
}

/// Setting the system proxy, setting TUN mode and resetting the proxy never
/// ask for confirmation while the manager has its service handler.
pub proof fn lemma_common_ops_need_no_confirmation(m: PrivilegeManager, op: PrivilegedOperation)
    requires
        m.service_handler is Some,
        op is SetSystemProxy || op is SetTunMode || op is ResetSystemProxy,
    ensures
        !(m.service_handler is None || !is_supported(op)),
{
}

/// Updating core permissions or network settings is refused at once: the run
/// ends on its first step, asks for no outside work, and explains why.
pub proof fn lemma_unsupported_fails_without_work(
    op: PrivilegedOperation,
    has_service: bool,
    ph: Phase,
    s: Step,
)
    requires
        op is UpdateCorePermissions || op is ModifyNetworkSettings,
        start_ok(op, has_service, ph, s),
    ensures
        ph == Phase::Finished,
        s is Finish,
        !s->Finish_0.success,
        s->Finish_0.message is Some,
        s->Finish_0.message.unwrap()@.len() > 0,
{
    reveal_strlit("operation not supported by the service");
}

/// Turning the system proxy on and then off by two one-field patches leaves
/// TUN mode as it was.
pub proof fn lemma_proxy_round_trip_keeps_tun(c: VergeConfig, on: VergePatch, off: VergePatch)
    requires
        on.enable_system_proxy == Some(true),
        on.enable_tun_mode.is_none(),
        off.enable_system_proxy == Some(false),
        off.enable_tun_mode.is_none(),
    ensures
        apply_patch(apply_patch(c, on), off).enable_tun_mode == c.enable_tun_mode,
        apply_patch(apply_patch(c, on), off).enable_system_proxy == Some(false),
{
}

} // verus!
