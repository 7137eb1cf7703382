//! Routing and service-lifecycle decisions for privileged operations.
//!
//! The library decides how an operation that needs elevated rights is carried
//! out: through a privileged background service, or by a direct configuration
//! update when the service is gone. All outside work (probing the service,
//! installing or starting it, reading and patching configuration) is described
//! as actions; the caller performs them and hands back what happened.

mod commands;
mod config;
mod lifecycle;
mod manager;
mod operation;
mod operations;
mod service_handler;
mod text;

pub use commands::{
    auto_setup_install_outcome, auto_setup_service_mode, check_service_mode_availability,
    get_current_privilege_mode, precheck_privilege_operation, test_privilege_system, PrivilegeTestResult,
    ServiceModeInfo,
};
pub use config::{VergeConfig, VergePatch};
pub use lifecycle::{
    lemma_common_ops_need_no_confirmation, lemma_disable_stops_idle_service, lemma_failures_are_explained, lemma_proxy_round_trip_keeps_tun,
    lemma_running_service_is_not_started, lemma_stop_at_most_once, lemma_unsupported_fails_without_work,
};
pub use manager::{
    setup_action, Action, Event, OperationRun, Phase, PrivilegeManager, Probe, Route, Step, SETTLE_SECONDS,
};
pub use operation::{PrivilegeMode, PrivilegeStatus, PrivilegedOperation, PrivilegedOperationResult, ServiceStatus};
pub use operations::{
    check_result, get_privilege_recommendations, modify_network_settings, parse_bypass, reset_system_proxy,
    set_system_proxy, set_tun_mode, smart_proxy_operation, toggle_system_proxy, toggle_tun_mode,
    update_core_permissions,
};
pub use service_handler::ServicePrivilegeHandler;
