use vstd::prelude::*;
use crate::manager::PrivilegeManager;
use crate::operation::{status_name, PrivilegeMode, PrivilegeStatus, PrivilegedOperation, ServiceStatus};
use crate::operations::{get_privilege_recommendations, recommendations};
use crate::service_handler::is_supported;
use crate::text::{concat, owned, texts};

verus! {

/// What the user interface shows about service mode.
#[derive(Clone, Debug)]
pub struct ServiceModeInfo {
    pub available: bool,
    pub connected: bool,
    pub service_status: Option<String>,
    pub current_mode: PrivilegeMode,
    pub benefits: Vec<String>,
}

/// A self-check of the privilege system.
#[derive(Clone, Debug)]
pub struct PrivilegeTestResult {
    pub overall_status: String,
    pub test_results: Vec<String>,
    pub recommendations: Vec<String>,
}

/// The system runs in service mode only.
pub fn get_current_privilege_mode() -> (r: PrivilegeMode)
    ensures
        r == PrivilegeMode::Service,
{
    PrivilegeMode::Service
}

/// Whether `op` would ask the user to confirm, without carrying it out.
pub fn precheck_privilege_operation(m: &PrivilegeManager, op: &PrivilegedOperation) -> (r: bool)
    ensures
        r == (m.service_handler is None || !is_supported(*op)),
{
    m.requires_confirmation(op)
}

pub open spec fn benefits() -> Seq<Seq<char>> {
    seq![
        "no elevation prompt on every change"@,
        "faster proxy switching"@,
        "steadier privilege handling"@,
        "follows platform security practice"@,
    ]
}

/// Service-mode information from a status and the state the service manager
/// reported (`None` where the query failed); the state is shown only where
/// service support exists.
pub fn check_service_mode_availability(status: &PrivilegeStatus, queried: Option<ServiceStatus>) -> (r:
    ServiceModeInfo)
    ensures
        r.available == status.service_available,
        r.connected == status.service_connected,
        r.current_mode == status.current_mode,
        match (status.service_available, queried) {
            (true, Some(q)) => r.service_status is Some && r.service_status.unwrap()@ == status_name(q),
            _ => r.service_status is None,
        },
        texts(r.benefits@) == benefits(),
{
    let service_status = if status.service_available {
        match queried {
            Some(q) => Some(owned(q.name())),
            None => None,
        }
    } else {
        None
    };
    let mut b: Vec<String> = Vec::new();
    b.push(owned("no elevation prompt on every change"));
    b.push(owned("faster proxy switching"));
    b.push(owned("steadier privilege handling"));
    b.push(owned("follows platform security practice"));
    assert(texts(b@) =~= benefits());
    ServiceModeInfo {
        available: status.service_available,
        connected: status.service_connected,
        service_status,
        current_mode: status.current_mode,
        benefits: b,
    }
}

pub open spec fn check_lines(has_handler: bool, usable: bool) -> Seq<Seq<char>> {
    let first = seq!["ok: privilege status read"@];
    let middle = if has_handler {
        seq![if usable { "ok: service mode available"@ } else { "warning: service mode unavailable"@ }]
    } else {
        seq![]
    };
    first + middle + seq!["ok: running in service-only mode"@]
}

pub open spec fn overall_text(connected: bool) -> Seq<char> {
    if connected {
        "privilege system is working"@
    } else {
        "service is not running; install or start it"@
    }
}

/// The self-check report: `usable` is the service probe, `status` the
/// status read after it.
pub fn test_privilege_system(m: &PrivilegeManager, usable: bool, status: &PrivilegeStatus) -> (r:
    PrivilegeTestResult)
    ensures
        r.overall_status@ == overall_text(status.service_connected),
        texts(r.test_results@) == check_lines(m.service_handler is Some, usable),
        texts(r.recommendations@) == recommendations(*status),
{
    let mut lines: Vec<String> = Vec::new();
    lines.push(owned("ok: privilege status read"));
    if m.service_handler.is_some() {
        if usable {
            lines.push(owned("ok: service mode available"));
        } else {
            lines.push(owned("warning: service mode unavailable"));
        }
    }
    lines.push(owned("ok: running in service-only mode"));
    assert(texts(lines@) =~= check_lines(m.service_handler is Some, usable));
    let overall = if status.service_connected {
        owned("privilege system is working")
    } else {
        owned("service is not running; install or start it")
    };
    PrivilegeTestResult {
        overall_status: overall,
        test_results: lines,
        recommendations: get_privilege_recommendations(status),
    }
}

pub open spec fn msg_already_running() -> Seq<char> {
    "service mode is already enabled and running"@
}

pub open spec fn msg_mode_unavailable() -> Seq<char> {
    "service mode is not available"@
}

pub open spec fn msg_setup_done() -> Seq<char> {
    "service mode set up"@
}

pub open spec fn msg_setup_error() -> Seq<char> {
    "service mode setup failed: "@
}

/// The answer to a request to set service mode up, where the status decides
/// it; `None` where the service must be installed first.
pub fn auto_setup_service_mode(status: &PrivilegeStatus) -> (r: Option<Result<String, String>>)
    ensures
        status.service_connected ==> (r matches Some(Ok(t)) && t@ == msg_already_running()),
        !status.service_connected && !status.service_available ==> (r matches Some(Err(e)) && e@
            == msg_mode_unavailable()),
        !status.service_connected && status.service_available ==> r is None,
{
    if status.service_connected {
        Some(Ok(owned("service mode is already enabled and running")))
    } else if !status.service_available {
        Some(Err(owned("service mode is not available")))
    } else {
        None
    }
}

/// The answer to a request to set service mode up, once the install ran.
pub fn auto_setup_install_outcome(installed: Result<(), String>) -> (r: Result<String, String>)
    ensures
        installed is Ok ==> (r matches Ok(t) && t@ == msg_setup_done()),
        installed matches Err(e) ==> (r matches Err(f) && f@ == msg_setup_error() + e@),
{
    match installed {
        Ok(()) => Ok(owned("service mode set up")),
        Err(e) => Err(concat("service mode setup failed: ", e.as_str())),
    }
}

} // verus!
