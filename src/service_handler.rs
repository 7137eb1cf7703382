use vstd::prelude::*;
use crate::config::VergePatch;
use crate::operation::{PrivilegedOperation, ServiceStatus};
use crate::text::{comma_joined, join_with_commas, texts};

verus! {

/// Operations that the privileged service can carry out today.
pub open spec fn is_supported(op: PrivilegedOperation) -> bool {
    match op {
        PrivilegedOperation::SetSystemProxy { .. } => true,
        PrivilegedOperation::SetTunMode { .. } => true,
        PrivilegedOperation::ResetSystemProxy => true,
        _ => false,
    }
}

/// The service is usable only when a live channel exists and it reports running.
pub open spec fn service_usable(connected: bool, status: Option<ServiceStatus>) -> bool {
    connected && status == Some(ServiceStatus::Running)
}

/// The configuration patch through which the service carries out `op`.
/// Turning the system proxy on turns TUN mode off in the same patch, and the
/// other way round.
pub open spec fn service_patch_ok(op: PrivilegedOperation, p: VergePatch) -> bool {
    match op {
        PrivilegedOperation::SetSystemProxy { enable, port, bypass } => {
            &&& p.enable_system_proxy == Some(enable)
            &&& p.enable_tun_mode == (if enable { Some(false) } else { None::<bool> })
            &&& p.verge_mixed_port == Some(port)
            &&& if bypass.len() == 0 {
                p.system_proxy_bypass.is_none()
            } else {
                p.system_proxy_bypass is Some && p.system_proxy_bypass.unwrap()@ == comma_joined(
                    texts(bypass@),
                )
            }
            &&& p.enable_service_mode.is_none()
        },
        PrivilegedOperation::SetTunMode { enable } => {
            &&& p.enable_system_proxy == (if enable { Some(false) } else { None::<bool> })
            &&& p.enable_tun_mode == Some(enable)
            &&& p.verge_mixed_port.is_none()
            &&& p.system_proxy_bypass.is_none()
            &&& p.enable_service_mode.is_none()
        },
        PrivilegedOperation::ResetSystemProxy => {
            &&& p.enable_system_proxy == Some(false)
            &&& p.enable_tun_mode.is_none()
            &&& p.verge_mixed_port.is_none()
            &&& p.system_proxy_bypass.is_none()
            &&& p.enable_service_mode.is_none()
        },
        _ => false,
    }
}

/// Carries out privileged operations through the background service.
#[derive(Clone, Copy, Debug)]
pub struct ServicePrivilegeHandler {}

impl ServicePrivilegeHandler {
    pub fn new() -> (r: ServicePrivilegeHandler) {
        ServicePrivilegeHandler {}
    }

    /// The tag this handler leaves in results.
    pub fn name(&self) -> (r: &'static str)
        ensures
            r@ == handler_tag(),
    {
        "service"
    }

    /// The system proxy, TUN mode and a proxy reset are supported; updating
    /// core permissions and network settings wait for service-side support.
    pub fn supports_operation(&self, op: &PrivilegedOperation) -> (r: bool)
        ensures
            r == is_supported(*op),
    {
        match op {
            PrivilegedOperation::SetSystemProxy { .. } => true,
            PrivilegedOperation::SetTunMode { .. } => true,
            PrivilegedOperation::ResetSystemProxy => true,
            PrivilegedOperation::UpdateCorePermissions { .. } => false,
            PrivilegedOperation::ModifyNetworkSettings { .. } => false,
        }
    }

    /// The common operations need no confirmation through the service; any
    /// other one does.
    pub fn requires_confirmation(&self, op: &PrivilegedOperation) -> (r: bool)
        ensures
            r == !is_supported(*op),
    {
        !self.supports_operation(op)
    }

    /// The configuration patch for a supported operation.
    pub fn config_patch(&self, op: &PrivilegedOperation) -> (r: VergePatch)
        requires
            is_supported(*op),
        ensures
            service_patch_ok(*op, r),
    {
        match op {
            PrivilegedOperation::SetSystemProxy { enable, port, bypass } => {
                let bypass_text = if bypass.len() == 0 {
                    None
                } else {
                    Some(join_with_commas(bypass))
                };
                VergePatch {
                    enable_system_proxy: Some(*enable),
                    enable_tun_mode: if *enable { Some(false) } else { None },
                    verge_mixed_port: Some(*port),
                    system_proxy_bypass: bypass_text,
                    enable_service_mode: None,
                }
            },
            PrivilegedOperation::SetTunMode { enable } => VergePatch {
                enable_tun_mode: Some(*enable),
                enable_system_proxy: if *enable { Some(false) } else { None },
                ..VergePatch::empty()
            },
            _ => VergePatch::system_proxy_only(false),
        }
    }

    /// Available means connected and reporting `Running`: both are needed.
    /// `status` is `None` where the status query failed.
    pub fn is_available(&self, connected: bool, status: Option<ServiceStatus>) -> (r: bool)
        ensures
            r == service_usable(connected, status),
    {
        connected && match status {
            Some(ServiceStatus::Running) => true,
            _ => false,
        }
    }
}

pub open spec fn handler_tag() -> Seq<char> {
    "service"@
}

} // verus!
