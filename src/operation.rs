use vstd::prelude::*;

verus! {

/// A request that needs elevated rights.
#[derive(Clone, Debug)]
pub enum PrivilegedOperation {
    SetSystemProxy { enable: bool, port: u16, bypass: Vec<String> },
    SetTunMode { enable: bool },
    ResetSystemProxy,
    UpdateCorePermissions { core_path: String },
    ModifyNetworkSettings { dns: Option<Vec<String>> },
}

/// What the privileged service reports about itself.
#[derive(Clone, Copy, Debug, PartialEq, Eq, Structural)]
pub enum ServiceStatus {
    NotInstalled,
    Stopped,
    Running,
}

/// How privileged work is carried out; only `Service` is reported live.
#[derive(Clone, Copy, Debug, PartialEq, Eq, Structural)]
pub enum PrivilegeMode {
    Auto,
    Direct,
    Service,
    Disabled,
}

/// The outcome of one privileged operation, built once per call.
#[derive(Clone, Debug)]
pub struct PrivilegedOperationResult {
    pub success: bool,
    pub message: Option<String>,
    pub handler_used: String,
}

/// A snapshot of the privilege system, computed on demand.
#[derive(Clone, Copy, Debug, PartialEq, Eq, Structural)]
pub struct PrivilegeStatus {
    pub service_available: bool,
    pub service_connected: bool,
    pub current_mode: PrivilegeMode,
}

/// Turning a feature off (system proxy, TUN) is a disabling request; a proxy
/// reset always is. Everything else enables.
pub open spec fn is_disabling(op: PrivilegedOperation) -> bool {
    match op {
        PrivilegedOperation::SetSystemProxy { enable, .. } => !enable,
        PrivilegedOperation::SetTunMode { enable } => !enable,
        PrivilegedOperation::ResetSystemProxy => true,
        _ => false,
    }
}

impl ServiceStatus {
    /// The state's name as the service manager spells it.
    pub fn name(&self) -> (r: &'static str)
        ensures
            r@ == status_name(*self),
    {
        match self {
            ServiceStatus::NotInstalled => "NotInstalled",
            ServiceStatus::Stopped => "Stopped",
            ServiceStatus::Running => "Running",
        }
    }
}

pub open spec fn status_name(s: ServiceStatus) -> Seq<char> {
    match s {
        ServiceStatus::NotInstalled => "NotInstalled"@,
        ServiceStatus::Stopped => "Stopped"@,
        ServiceStatus::Running => "Running"@,
    }
}

impl PrivilegedOperation {
    /// Whether this request turns a service-gated feature off.
    pub fn is_disable_operation(&self) -> (r: bool)
        ensures
            r == is_disabling(*self),
    {
        match self {
            PrivilegedOperation::SetSystemProxy { enable, .. } => !*enable,
            PrivilegedOperation::SetTunMode { enable } => !*enable,
            PrivilegedOperation::ResetSystemProxy => true,
            _ => false,
        }
    }
}

} // verus!
