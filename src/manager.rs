use vstd::prelude::*;
use crate::config::{is_idle, VergeConfig, VergePatch};
use crate::operation::{
    is_disabling, PrivilegeMode, PrivilegeStatus, PrivilegedOperation, PrivilegedOperationResult,
    ServiceStatus,
};
use crate::service_handler::{is_supported, service_patch_ok, service_usable, ServicePrivilegeHandler};
use crate::text::{concat, owned};

verus! {

/// Outside work that an operation needs next. The caller performs it and
/// answers with the matching `Event`.
#[derive(Clone, Debug)]
pub enum Action {
    /// Ask whether a live channel to the service exists; answer `Connection`.
    CheckConnection,
    /// Ask the service manager for the service's state; answer `Status`.
    QueryStatus,
    /// Install the service; answer `Completed`.
    Install,
    /// Start the service; answer `Completed`.
    Start,
    /// Stop the service; answer `Completed`.
    Stop,
    /// Apply a partial configuration update; answer `Completed`.
    Patch(VergePatch),
    /// Read the latest configuration; answer `Config`.
    ReadConfig,
    /// Wait this many seconds; answer `Slept`.
    Sleep(u64),
}

/// What came of an `Action`.
#[derive(Debug)]
pub enum Event {
    Connection(bool),
    /// `None` where the status could not be read.
    Status(Option<ServiceStatus>),
    /// `Err` carries a readable reason.
    Completed(Result<(), String>),
    Config(VergeConfig),
    Slept,
}

/// Why the service is being probed.
#[derive(Clone, Copy, Debug, PartialEq, Eq, Structural)]
pub enum Probe {
    /// Before anything else.
    First,
    /// Right after a fresh install.
    AfterInstall,
    /// After the settle pause that follows an install.
    AfterPause,
    /// After setting the service up, before the one retry.
    Retry,
}

/// What follows once the service has carried out the operation.
#[derive(Clone, Copy, Debug, PartialEq, Eq, Structural)]
pub enum Route {
    /// A disabling request: check for idleness afterwards.
    Disable,
    /// An enabling request on a service that was already there.
    Enable,
    /// An enabling request after the service was set up.
    AfterSetup,
}

/// Where a run of one operation stands.
#[derive(Clone, Copy, Debug, PartialEq, Eq, Structural)]
pub enum Phase {
    ProbeConnection(Probe),
    ProbeStatus(Probe),
    DirectPatch,
    SetupStatus,
    SetupStart,
    SetupInstall,
    SetupMark,
    SetupPause,
    ExecPatch(Route),
    ExecStatus(Route),
    ExecStart(Route),
    IdleCheck,
    Stopping,
    Finished,
}

/// The next thing to do: outside work, or the final result.
#[derive(Clone, Debug)]
pub enum Step {
    Perform(Action),
    Finish(PrivilegedOperationResult),
}

/// One operation in progress.
#[derive(Clone, Debug)]
pub struct OperationRun {
    pub op: PrivilegedOperation,
    pub phase: Phase,
}

/// The process-wide authority over privileged operations.
#[derive(Clone, Copy, Debug)]
pub struct PrivilegeManager {
    pub service_handler: Option<ServicePrivilegeHandler>,
    pub auto_service_setup: bool,
}

pub const SETTLE_SECONDS: u64 = 2;

pub open spec fn tag_service() -> Seq<char> { "service"@ }
pub open spec fn tag_config_direct() -> Seq<char> { "config_direct"@ }
pub open spec fn tag_auto_start() -> Seq<char> { "service_auto_start"@ }
pub open spec fn tag_auto_start_failed() -> Seq<char> { "service_auto_start_failed"@ }

pub open spec fn msg_unsupported() -> Seq<char> { "operation not supported by the service"@ }
pub open spec fn msg_op_failed() -> Seq<char> { "operation failed: "@ }
pub open spec fn msg_failed_after_start() -> Seq<char> { "service started but the operation failed: "@ }
pub open spec fn msg_auto_started() -> Seq<char> { "service was started automatically"@ }
pub open spec fn msg_still_unavailable() -> Seq<char> { "service still unavailable after setup"@ }
pub open spec fn msg_setup_failed() -> Seq<char> {
    "could not start the privileged service; install it manually or check permissions: "@
}
pub open spec fn msg_no_service() -> Seq<char> { "privileged service support is not available"@ }
pub open spec fn msg_status_unknown() -> Seq<char> { "could not read the service status"@ }
pub open spec fn msg_config_failed() -> Seq<char> { "configuration update failed: "@ }
pub open spec fn msg_proxy_off() -> Seq<char> { "system proxy turned off in configuration"@ }
pub open spec fn msg_tun_off() -> Seq<char> { "TUN mode turned off in configuration"@ }
pub open spec fn msg_unexpected() -> Seq<char> { "unexpected response to the last action"@ }

pub open spec fn opt_text(m: Option<String>) -> Option<Seq<char>> {
    match m {
        Some(s) => Some(s@),
        None => None,
    }
}

/// `s` ends the run with this result.
pub open spec fn finishes(s: Step, success: bool, message: Option<Seq<char>>, handler: Seq<char>) -> bool {
    match s {
        Step::Finish(r) => r.success == success && opt_text(r.message) == message
            && r.handler_used@ == handler,
        _ => false,
    }
}

/// `s` asks for a patch that carries out `op` through the service.
pub open spec fn patches_for(s: Step, op: PrivilegedOperation) -> bool {
    match s {
        Step::Perform(Action::Patch(p)) => service_patch_ok(op, p),
        _ => false,
    }
}

/// `s` asks for a patch that sets exactly the flag that a disabling `op` turns off.
pub open spec fn direct_patch_for(s: Step, op: PrivilegedOperation) -> bool {
    match s {
        Step::Perform(Action::Patch(p)) => {
            &&& p.verge_mixed_port.is_none()
            &&& p.system_proxy_bypass.is_none()
            &&& p.enable_service_mode.is_none()
            &&& if op is SetTunMode {
                p.enable_tun_mode == Some(false) && p.enable_system_proxy.is_none()
            } else {
                p.enable_system_proxy == Some(false) && p.enable_tun_mode.is_none()
            }
        },
        _ => false,
    }
}

/// `s` asks to mark service mode as enabled in configuration.
pub open spec fn marks_service_mode(s: Step) -> bool {
    match s {
        Step::Perform(Action::Patch(p)) => {
            &&& p.enable_system_proxy.is_none()
            &&& p.enable_tun_mode.is_none()
            &&& p.verge_mixed_port.is_none()
            &&& p.system_proxy_bypass.is_none()
            &&& p.enable_service_mode == Some(true)
        },
        _ => false,
    }
}

pub open spec fn performs(s: Step, a: Action) -> bool {
    s == Step::Perform(a)
}

/// Once the service has done (or failed) the work of `route`.
pub open spec fn exec_done_ok(route: Route, res: Result<(), Seq<char>>, ph: Phase, s: Step) -> bool {
    match (route, res) {
        (Route::Disable, Ok(())) => ph == Phase::IdleCheck && performs(s, Action::ReadConfig),
        (Route::Enable, Ok(())) => ph == Phase::Finished && finishes(s, true, None, tag_service()),
        (Route::AfterSetup, Ok(())) => ph == Phase::Finished && finishes(
            s,
            true,
            Some(msg_auto_started()),
            tag_auto_start(),
        ),
        (Route::AfterSetup, Err(e)) => ph == Phase::Finished && finishes(
            s,
            false,
            Some(msg_failed_after_start() + e),
            tag_service(),
        ),
        (_, Err(e)) => ph == Phase::Finished && finishes(s, false, Some(msg_op_failed() + e), tag_service()),
    }
}

/// Handing `op` to the service.
pub open spec fn begin_exec_ok(op: PrivilegedOperation, route: Route, ph: Phase, s: Step) -> bool {
    if !is_supported(op) {
        exec_done_ok(route, Err(msg_unsupported()), ph, s)
    } else {
        ph == Phase::ExecPatch(route) && patches_for(s, op)
    }
}

/// The service is set up: probe it once more before the one retry.
pub open spec fn setup_ok(ph: Phase, s: Step) -> bool {
    ph == Phase::ProbeConnection(Probe::Retry) && performs(s, Action::CheckConnection)
}

/// Setting the service up failed with reason `e`.
pub open spec fn setup_failed(e: Seq<char>, ph: Phase, s: Step) -> bool {
    ph == Phase::Finished && finishes(s, false, Some(msg_setup_failed() + e), tag_auto_start_failed())
}

/// The service is not usable and a disabling `op` changes configuration only.
pub open spec fn go_direct(op: PrivilegedOperation, ph: Phase, s: Step) -> bool {
    ph == Phase::DirectPatch && direct_patch_for(s, op)
}

/// The service is not usable and an enabling request sets it up.
pub open spec fn go_setup(ph: Phase, s: Step) -> bool {
    ph == Phase::SetupStatus && performs(s, Action::QueryStatus)
}

/// What follows a probe that found the service usable or not.
pub open spec fn after_probe_ok(op: PrivilegedOperation, probe: Probe, usable: bool, ph: Phase, s: Step) -> bool {
    match (probe, usable) {
        (Probe::First, true) => begin_exec_ok(
            op,
            if is_disabling(op) { Route::Disable } else { Route::Enable },
            ph,
            s,
        ),
        (Probe::First, false) => if is_disabling(op) { go_direct(op, ph, s) } else { go_setup(ph, s) },
        (Probe::AfterInstall, true) => setup_ok(ph, s),
        (Probe::AfterInstall, false) => ph == Phase::SetupPause && performs(s, Action::Sleep(SETTLE_SECONDS)),
        (Probe::AfterPause, true) => setup_ok(ph, s),
        (Probe::AfterPause, false) => ph == Phase::SetupStart && performs(s, Action::Start),
        (Probe::Retry, true) => begin_exec_ok(op, Route::AfterSetup, ph, s),
        (Probe::Retry, false) => ph == Phase::Finished && finishes(
            s,
            false,
            Some(msg_still_unavailable()),
            tag_auto_start(),
        ),
    }
}

pub open spec fn outcome(r: Result<(), String>) -> Result<(), Seq<char>> {
    match r {
        Ok(()) => Ok(()),
        Err(e) => Err(e@),
    }
}

/// The first step of a run of `op`.
pub open spec fn start_ok(op: PrivilegedOperation, has_service: bool, ph: Phase, s: Step) -> bool {
    if !is_supported(op) {
        ph == Phase::Finished && finishes(s, false, Some(msg_unsupported()), tag_service())
    } else if !has_service {
        if is_disabling(op) {
            go_direct(op, ph, s)
        } else {
            setup_failed(msg_no_service(), ph, s)
        }
    } else {
        ph == Phase::ProbeConnection(Probe::First) && performs(s, Action::CheckConnection)
    }
}

/// One step of a run of `op`: in phase `ph`, event `ev` leads to phase `ph2`
/// and step `s`.
pub open spec fn next_ok(op: PrivilegedOperation, ph: Phase, ev: Event, ph2: Phase, s: Step) -> bool {
    match (ph, ev) {
        (Phase::ProbeConnection(p), Event::Connection(true)) => ph2 == Phase::ProbeStatus(p)
            && performs(s, Action::QueryStatus),
        (Phase::ProbeConnection(p), Event::Connection(false)) => after_probe_ok(op, p, false, ph2, s),
        (Phase::ProbeStatus(p), Event::Status(st)) => after_probe_ok(
            op,
            p,
            st == Some(ServiceStatus::Running),
            ph2,
            s,
        ),
        (Phase::DirectPatch, Event::Completed(r)) => ph2 == Phase::Finished && match r {
            Ok(()) => finishes(
                s,
                true,
                Some(if op is SetTunMode { msg_tun_off() } else { msg_proxy_off() }),
                tag_config_direct(),
            ),
            Err(e) => finishes(s, false, Some(msg_config_failed() + e@), tag_config_direct()),
        },
        (Phase::SetupStatus, Event::Status(st)) => match st {
            Some(ServiceStatus::Running) => setup_ok(ph2, s),
            Some(ServiceStatus::Stopped) => ph2 == Phase::SetupStart && performs(s, Action::Start),
            _ => ph2 == Phase::SetupInstall && performs(s, Action::Install),
        },
        (Phase::SetupStart, Event::Completed(r)) => match r {
            Ok(()) => setup_ok(ph2, s),
            Err(e) => setup_failed(e@, ph2, s),
        },
        (Phase::SetupInstall, Event::Completed(r)) => match r {
            Ok(()) => ph2 == Phase::SetupMark && marks_service_mode(s),
            Err(e) => setup_failed(e@, ph2, s),
        },
        (Phase::SetupMark, Event::Completed(_)) => ph2 == Phase::ProbeConnection(Probe::AfterInstall)
            && performs(s, Action::CheckConnection),
        (Phase::SetupPause, Event::Slept) => ph2 == Phase::ProbeConnection(Probe::AfterPause)
            && performs(s, Action::CheckConnection),
        (Phase::ExecPatch(route), Event::Completed(r)) => match r {
            Ok(()) => ph2 == Phase::ExecStatus(route) && performs(s, Action::QueryStatus),
            Err(e) => exec_done_ok(route, Err(e@), ph2, s),
        },
        (Phase::ExecStatus(route), Event::Status(st)) => match st {
            Some(ServiceStatus::Running) => exec_done_ok(route, Ok(()), ph2, s),
            Some(_) => ph2 == Phase::ExecStart(route) && performs(s, Action::Start),
            None => exec_done_ok(route, Err(msg_status_unknown()), ph2, s),
        },
        (Phase::ExecStart(route), Event::Completed(r)) => exec_done_ok(route, outcome(r), ph2, s),
        (Phase::IdleCheck, Event::Config(c)) => if is_idle(c) {
            ph2 == Phase::Stopping && performs(s, Action::Stop)
        } else {
            ph2 == Phase::Finished && finishes(s, true, None, tag_service())
        },
        (Phase::Stopping, Event::Completed(_)) => ph2 == Phase::Finished && finishes(
            s,
            true,
            None,
            tag_service(),
        ),
        _ => ph2 == Phase::Finished && finishes(s, false, Some(msg_unexpected()), tag_service()),
    }
}

fn finish(success: bool, message: Option<String>, handler: &str) -> (r: Step)
    ensures
        r == Step::Finish(PrivilegedOperationResult { success, message, handler_used: r->Finish_0.handler_used }),
        r->Finish_0.handler_used@ == handler@,
{
    Step::Finish(PrivilegedOperationResult { success, message, handler_used: owned(handler) })
}

fn fail_with(prefix: &str, detail: &str, handler: &str) -> (r: Step)
    ensures
        finishes(r, false, Some(prefix@ + detail@), handler@),
{
    finish(false, Some(concat(prefix, detail)), handler)
}

fn fail(message: &str, handler: &str) -> (r: Step)
    ensures
        finishes(r, false, Some(message@), handler@),
{
    finish(false, Some(owned(message)), handler)
}

impl OperationRun {
    fn exec_done(&mut self, route: Route, res: Result<(), &str>) -> (s: Step)
        ensures
            exec_done_ok(route, match res { Ok(()) => Ok(()), Err(e) => Err(e@) }, final(self).phase, s),
            final(self).op == old(self).op,
    {
        proof {
            reveal_strlit("service");
            reveal_strlit("service_auto_start");
        }
        match (route, res) {
            (Route::Disable, Ok(())) => {
                self.phase = Phase::IdleCheck;
                Step::Perform(Action::ReadConfig)
            },
            (Route::Enable, Ok(())) => {
                self.phase = Phase::Finished;
                finish(true, None, "service")
            },
            (Route::AfterSetup, Ok(())) => {
                self.phase = Phase::Finished;
                finish(true, Some(owned("service was started automatically")), "service_auto_start")
            },
            (Route::AfterSetup, Err(e)) => {
                self.phase = Phase::Finished;
                fail_with("service started but the operation failed: ", e, "service")
            },
            (_, Err(e)) => {
                self.phase = Phase::Finished;
                fail_with("operation failed: ", e, "service")
            },
        }
    }

    fn begin_exec(&mut self, route: Route) -> (s: Step)
        ensures
            begin_exec_ok(old(self).op, route, final(self).phase, s),
            final(self).op == old(self).op,
    {
        let handler = ServicePrivilegeHandler::new();
        if !handler.supports_operation(&self.op) {
            self.exec_done(route, Err("operation not supported by the service"))
        } else {
            self.phase = Phase::ExecPatch(route);
            Step::Perform(Action::Patch(handler.config_patch(&self.op)))
        }
    }

    fn setup_done(&mut self) -> (s: Step)
        ensures
            setup_ok(final(self).phase, s),
            final(self).op == old(self).op,
    {
        self.phase = Phase::ProbeConnection(Probe::Retry);
        Step::Perform(Action::CheckConnection)
    }

    fn setup_fail(&mut self, e: &str) -> (s: Step)
        ensures
            setup_failed(e@, final(self).phase, s),
            final(self).op == old(self).op,
    {
        self.phase = Phase::Finished;
        fail_with(
            "could not start the privileged service; install it manually or check permissions: ",
            e,
            "service_auto_start_failed",
        )
    }

    fn go_direct(&mut self) -> (s: Step)
        ensures
            go_direct(old(self).op, final(self).phase, s),
            final(self).op == old(self).op,
    {
        self.phase = Phase::DirectPatch;
        let patch = match self.op {
            PrivilegedOperation::SetTunMode { .. } => VergePatch::tun_mode_only(false),
            _ => VergePatch::system_proxy_only(false),
        };
        Step::Perform(Action::Patch(patch))
    }

    fn after_probe(&mut self, probe: Probe, usable: bool) -> (s: Step)
        ensures
            after_probe_ok(old(self).op, probe, usable, final(self).phase, s),
            final(self).op == old(self).op,
    {
        match (probe, usable) {
            (Probe::First, true) => {
                let route = if self.op.is_disable_operation() { Route::Disable } else { Route::Enable };
                self.begin_exec(route)
            },
            (Probe::First, false) => {
                if self.op.is_disable_operation() {
                    self.go_direct()
                } else {
                    self.phase = Phase::SetupStatus;
                    Step::Perform(Action::QueryStatus)
                }
            },
            (Probe::AfterInstall, true) => self.setup_done(),
            (Probe::AfterInstall, false) => {
                self.phase = Phase::SetupPause;
                Step::Perform(Action::Sleep(SETTLE_SECONDS))
            },
            (Probe::AfterPause, true) => self.setup_done(),
            (Probe::AfterPause, false) => {
                self.phase = Phase::SetupStart;
                Step::Perform(Action::Start)
            },
            (Probe::Retry, true) => self.begin_exec(Route::AfterSetup),
            (Probe::Retry, false) => {
                self.phase = Phase::Finished;
                proof { reveal_strlit("service_auto_start"); }
                fail("service still unavailable after setup", "service_auto_start")
            },
        }
    }
}

/// The lifecycle call that brings the service up from `status` (`None`
/// where it could not be read): nothing when it runs, a start when it is
/// stopped, an install otherwise.
pub fn setup_action(status: Option<ServiceStatus>) -> (r: Option<Action>)
    ensures
        r == match status {
            Some(ServiceStatus::Running) => None,
            Some(ServiceStatus::Stopped) => Some(Action::Start),
            _ => Some(Action::Install),
        },
{
    match status {
        Some(ServiceStatus::Running) => None,
        Some(ServiceStatus::Stopped) => Some(Action::Start),
        _ => Some(Action::Install),
    }
}

impl OperationRun {
    /// Feeds the answer to the last action and returns what comes next.
    /// An answer that does not fit the last action ends the run with a failure.
    pub fn resume(&mut self, ev: Event) -> (s: Step)
        ensures
            next_ok(old(self).op, old(self).phase, ev, final(self).phase, s),
            final(self).op == old(self).op,
    {
        proof {
            reveal_strlit("service");
            reveal_strlit("config_direct");
        }
        match (self.phase, ev) {
            (Phase::ProbeConnection(p), Event::Connection(true)) => {
                self.phase = Phase::ProbeStatus(p);
                Step::Perform(Action::QueryStatus)
            },
            (Phase::ProbeConnection(p), Event::Connection(false)) => self.after_probe(p, false),
            (Phase::ProbeStatus(p), Event::Status(st)) => {
                let usable = ServicePrivilegeHandler::new().is_available(true, st);
                self.after_probe(p, usable)
            },
            (Phase::DirectPatch, Event::Completed(r)) => {
                self.phase = Phase::Finished;
                match r {
                    Ok(()) => {
                        let message = match self.op {
                            PrivilegedOperation::SetTunMode { .. } => "TUN mode turned off in configuration",
                            _ => "system proxy turned off in configuration",
                        };
                        finish(true, Some(owned(message)), "config_direct")
                    },
                    Err(e) => fail_with("configuration update failed: ", e.as_str(), "config_direct"),
                }
            },
            (Phase::SetupStatus, Event::Status(st)) => match st {
                Some(ServiceStatus::Running) => self.setup_done(),
                Some(ServiceStatus::Stopped) => {
                    self.phase = Phase::SetupStart;
                    Step::Perform(Action::Start)
                },
                _ => {
                    self.phase = Phase::SetupInstall;
                    Step::Perform(Action::Install)
                },
            },
            (Phase::SetupStart, Event::Completed(r)) => match r {
                Ok(()) => self.setup_done(),
                Err(e) => self.setup_fail(e.as_str()),
            },
            (Phase::SetupInstall, Event::Completed(r)) => match r {
                Ok(()) => {
                    self.phase = Phase::SetupMark;
                    Step::Perform(Action::Patch(VergePatch::service_mode_on()))
                },
                Err(e) => self.setup_fail(e.as_str()),
            },
            (Phase::SetupMark, Event::Completed(_)) => {
                self.phase = Phase::ProbeConnection(Probe::AfterInstall);
                Step::Perform(Action::CheckConnection)
            },
            (Phase::SetupPause, Event::Slept) => {
                self.phase = Phase::ProbeConnection(Probe::AfterPause);
                Step::Perform(Action::CheckConnection)
            },
            (Phase::ExecPatch(route), Event::Completed(r)) => match r {
                Ok(()) => {
                    self.phase = Phase::ExecStatus(route);
                    Step::Perform(Action::QueryStatus)
                },
                Err(e) => self.exec_done(route, Err(e.as_str())),
            },
            (Phase::ExecStatus(route), Event::Status(st)) => match st {
                Some(ServiceStatus::Running) => self.exec_done(route, Ok(())),
                Some(_) => {
                    self.phase = Phase::ExecStart(route);
                    Step::Perform(Action::Start)
                },
                None => self.exec_done(route, Err("could not read the service status")),
            },
            (Phase::ExecStart(route), Event::Completed(r)) => match r {
                Ok(()) => self.exec_done(route, Ok(())),
                Err(e) => self.exec_done(route, Err(e.as_str())),
            },
            (Phase::IdleCheck, Event::Config(c)) => {
                if c.is_idle() {
                    self.phase = Phase::Stopping;
                    Step::Perform(Action::Stop)
                } else {
                    self.phase = Phase::Finished;
                    finish(true, None, "service")
                }
            },
            (Phase::Stopping, Event::Completed(_)) => {
                self.phase = Phase::Finished;
                finish(true, None, "service")
            },
            _ => {
                self.phase = Phase::Finished;
                fail("unexpected response to the last action", "service")
            },
        }
    }

    /// Whether the run has produced its result.
    pub fn is_finished(&self) -> (r: bool)
        ensures
            r == (self.phase == Phase::Finished),
    {
        match self.phase {
            Phase::Finished => true,
            _ => false,
        }
    }
}

impl PrivilegeManager {
    /// A manager that owns one service handler and sets the service up on demand.
    pub fn new() -> (r: PrivilegeManager)
        ensures
            r.service_handler is Some,
            r.auto_service_setup,
    {
        PrivilegeManager { service_handler: Some(ServicePrivilegeHandler::new()), auto_service_setup: true }
    }

    /// Starts a run of `op`: the first step, and the run to resume with each answer.
    /// Operations the service does not support fail at once, before any outside work.
    pub fn execute_operation(&self, op: PrivilegedOperation) -> (r: (OperationRun, Step))
        ensures
            r.0.op == op,
            start_ok(op, self.service_handler is Some, r.0.phase, r.1),
    {
        proof {
            reveal_strlit("service");
        }
        let has_service = self.service_handler.is_some();
        let mut run = OperationRun { op, phase: Phase::ProbeConnection(Probe::First) };
        let handler = ServicePrivilegeHandler::new();
        if !handler.supports_operation(&run.op) {
            run.phase = Phase::Finished;
            let s = fail("operation not supported by the service", "service");
            (run, s)
        } else if !has_service {
            if run.op.is_disable_operation() {
                let s = run.go_direct();
                (run, s)
            } else {
                let s = run.setup_fail("privileged service support is not available");
                (run, s)
            }
        } else {
            (run, Step::Perform(Action::CheckConnection))
        }
    }

    /// The status built from a fresh probe: `connected` from the connection
    /// check, `status` from the service manager (`None` where it failed).
    pub fn get_privilege_status(&self, connected: bool, status: Option<ServiceStatus>) -> (r: PrivilegeStatus)
        ensures
            r.service_available == self.service_handler is Some,
            r.service_connected == (self.service_handler is Some && service_usable(connected, status)),
            r.current_mode == PrivilegeMode::Service,
    {
        let service_connected = match &self.service_handler {
            Some(h) => h.is_available(connected, status),
            None => false,
        };
        PrivilegeStatus {
            service_available: self.service_handler.is_some(),
            service_connected,
            current_mode: PrivilegeMode::Service,
        }
    }

    /// Whether an operation gains from going through the service: proxy
    /// changes do on Windows (no elevation prompt), enabling TUN and the
    /// advanced operations always do.
    pub fn should_prefer_service_for_operation(&self, op: &PrivilegedOperation, windows: bool) -> (r: bool)
        ensures
            r == match *op {
                PrivilegedOperation::SetSystemProxy { .. } => windows,
                PrivilegedOperation::ResetSystemProxy => windows,
                PrivilegedOperation::SetTunMode { enable } => enable,
                _ => true,
            },
    {
        match op {
            PrivilegedOperation::SetSystemProxy { .. } => windows,
            PrivilegedOperation::ResetSystemProxy => windows,
            PrivilegedOperation::SetTunMode { enable } => *enable,
            PrivilegedOperation::UpdateCorePermissions { .. } => true,
            PrivilegedOperation::ModifyNetworkSettings { .. } => true,
        }
    }

    /// At start-up: whether to set the service up, given whether it is usable
    /// now. Failures of that set-up are only warnings.
    pub fn warm_up(&self, usable: bool) -> (r: bool)
        ensures
            r == (self.service_handler is Some && !usable && self.auto_service_setup),
    {
        self.service_handler.is_some() && !usable && self.auto_service_setup
    }

    /// Delegates to the handler; without service support, confirmation is asked.
    pub fn requires_confirmation(&self, op: &PrivilegedOperation) -> (r: bool)
        ensures
            r == (self.service_handler is None || !is_supported(*op)),
    {
        match &self.service_handler {
            Some(h) => h.requires_confirmation(op),
            None => true,
        }
    }
}

} // verus!
