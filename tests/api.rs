use nyanpasu_privilege::{
    auto_setup_install_outcome, auto_setup_service_mode, check_result, check_service_mode_availability,
    get_current_privilege_mode, get_privilege_recommendations, modify_network_settings, parse_bypass,
    precheck_privilege_operation, reset_system_proxy, set_system_proxy, set_tun_mode, setup_action,
    smart_proxy_operation, test_privilege_system, toggle_system_proxy, toggle_tun_mode, update_core_permissions,
    Action, PrivilegeManager, PrivilegeMode, PrivilegeStatus, PrivilegedOperation, PrivilegedOperationResult,
    ServicePrivilegeHandler, ServiceStatus, VergeConfig, VergePatch,
};

fn config() -> VergeConfig {
    VergeConfig {
        enable_system_proxy: None,
        enable_tun_mode: None,
        verge_mixed_port: None,
        system_proxy_bypass: None,
        enable_service_mode: None,
    }
}

fn status(available: bool, connected: bool, mode: PrivilegeMode) -> PrivilegeStatus {
    PrivilegeStatus { service_available: available, service_connected: connected, current_mode: mode }
}

fn all_ops() -> Vec<PrivilegedOperation> {
    vec![
        PrivilegedOperation::SetSystemProxy { enable: true, port: 1, bypass: vec![] },
        PrivilegedOperation::SetTunMode { enable: false },
        PrivilegedOperation::ResetSystemProxy,
        PrivilegedOperation::UpdateCorePermissions { core_path: "/x".to_string() },
        PrivilegedOperation::ModifyNetworkSettings { dns: None },
    ]
}

#[test]
fn common_operations_need_no_confirmation() {
    let m = PrivilegeManager::new();
    let ops = all_ops();
    assert!(!m.requires_confirmation(&ops[0]));
    assert!(!m.requires_confirmation(&ops[1]));
    assert!(!m.requires_confirmation(&ops[2]));
    assert!(m.requires_confirmation(&ops[3]));
    assert!(m.requires_confirmation(&ops[4]));
    let bare = PrivilegeManager { service_handler: None, auto_service_setup: true };
    assert!(bare.requires_confirmation(&ops[0]));
    assert!(precheck_privilege_operation(&bare, &ops[2]));
    assert!(!precheck_privilege_operation(&m, &ops[2]));
}

#[test]
fn handler_supports_only_proxy_and_tun() {
    let h = ServicePrivilegeHandler::new();
    let ops = all_ops();
    let supported: Vec<bool> = ops.iter().map(|o| h.supports_operation(o)).collect();
    assert_eq!(supported, vec![true, true, true, false, false]);
    assert_eq!(h.name(), "service");
}

#[test]
fn availability_needs_connection_and_running() {
    let h = ServicePrivilegeHandler::new();
    assert!(h.is_available(true, Some(ServiceStatus::Running)));
    assert!(!h.is_available(false, Some(ServiceStatus::Running)));
    assert!(!h.is_available(true, Some(ServiceStatus::Stopped)));
    assert!(!h.is_available(true, None));
}

#[test]
fn disabling_classification() {
    let ops = all_ops();
    let flags: Vec<bool> = ops.iter().map(|o| o.is_disable_operation()).collect();
    assert_eq!(flags, vec![false, true, true, false, false]);
    assert!(PrivilegedOperation::SetSystemProxy { enable: false, port: 1, bypass: vec![] }.is_disable_operation());
    assert!(!PrivilegedOperation::SetTunMode { enable: true }.is_disable_operation());
}

#[test]
fn proxy_patch_keeps_other_fields() {
    let h = ServicePrivilegeHandler::new();
    let p = h.config_patch(&PrivilegedOperation::SetSystemProxy { enable: false, port: 7890, bypass: vec![] });
    assert_eq!(p.enable_system_proxy, Some(false));
    assert_eq!(p.enable_tun_mode, None);
    assert_eq!(p.verge_mixed_port, Some(7890));
    assert_eq!(p.system_proxy_bypass, None);
    let t = h.config_patch(&PrivilegedOperation::SetTunMode { enable: true });
    assert_eq!(t.enable_tun_mode, Some(true));
    assert_eq!(t.enable_system_proxy, Some(false));
}

#[test]
fn proxy_round_trip_leaves_tun_alone() {
    let mut c = config();
    c.enable_tun_mode = Some(true);
    c.apply(VergePatch::system_proxy_only(true));
    assert_eq!(c.enable_system_proxy, Some(true));
    assert_eq!(c.enable_tun_mode, Some(true));
    c.apply(VergePatch::system_proxy_only(false));
    assert_eq!(c.enable_system_proxy, Some(false));
    assert_eq!(c.enable_tun_mode, Some(true));
}

#[test]
fn idle_means_both_flags_off() {
    let mut c = config();
    assert!(c.is_idle());
    c.apply(VergePatch::tun_mode_only(true));
    assert!(!c.is_idle());
    c.apply(VergePatch::tun_mode_only(false));
    assert!(c.is_idle());
}

#[test]
fn bypass_list_is_trimmed_and_filtered() {
    assert_eq!(parse_bypass(" localhost , ,127.0.0.1,, *.lan "), vec!["localhost", "127.0.0.1", "*.lan"]);
    assert!(parse_bypass("").is_empty());
    assert!(parse_bypass(" , ").is_empty());
}

#[test]
fn system_proxy_request_uses_config() {
    let mut c = config();
    c.system_proxy_bypass = Some("a, b".to_string());
    match set_system_proxy(true, &c, 7897) {
        PrivilegedOperation::SetSystemProxy { enable, port, bypass } => {
            assert!(enable);
            assert_eq!(port, 7897);
            assert_eq!(bypass, vec!["a", "b"]);
        }
        _ => panic!("wrong operation"),
    }
    c.verge_mixed_port = Some(7890);
    match set_system_proxy(false, &c, 7897) {
        PrivilegedOperation::SetSystemProxy { port, .. } => assert_eq!(port, 7890),
        _ => panic!("wrong operation"),
    }
}

#[test]
fn toggles_flip_configured_flags() {
    let mut c = config();
    assert!(matches!(toggle_system_proxy(&c, 1), PrivilegedOperation::SetSystemProxy { enable: true, .. }));
    assert!(matches!(toggle_tun_mode(&c), PrivilegedOperation::SetTunMode { enable: true }));
    c.enable_system_proxy = Some(true);
    c.enable_tun_mode = Some(true);
    assert!(matches!(toggle_system_proxy(&c, 1), PrivilegedOperation::SetSystemProxy { enable: false, .. }));
    assert!(matches!(toggle_tun_mode(&c), PrivilegedOperation::SetTunMode { enable: false }));
}

#[test]
fn builders_make_the_named_operation() {
    assert!(matches!(set_tun_mode(true), PrivilegedOperation::SetTunMode { enable: true }));
    assert!(matches!(reset_system_proxy(), PrivilegedOperation::ResetSystemProxy));
    match update_core_permissions("/bin/core".to_string()) {
        PrivilegedOperation::UpdateCorePermissions { core_path } => assert_eq!(core_path, "/bin/core"),
        _ => panic!("wrong operation"),
    }
    assert!(matches!(modify_network_settings(None), PrivilegedOperation::ModifyNetworkSettings { dns: None }));
}

#[test]
fn failed_result_becomes_error() {
    let ok = PrivilegedOperationResult { success: true, message: None, handler_used: "service".to_string() };
    assert_eq!(check_result("set proxy: ", &ok), Ok(()));
    let bad = PrivilegedOperationResult {
        success: false,
        message: Some("boom".to_string()),
        handler_used: "service".to_string(),
    };
    assert_eq!(check_result("set proxy: ", &bad), Err("set proxy: boom".to_string()));
    let silent = PrivilegedOperationResult { success: false, message: None, handler_used: "x".to_string() };
    assert_eq!(check_result("tun: ", &silent), Err("tun: unknown error".to_string()));
}

#[test]
fn recommendations_follow_mode() {
    assert_eq!(
        get_privilege_recommendations(&status(true, true, PrivilegeMode::Service)),
        vec!["service mode is running well"]
    );
    assert_eq!(
        get_privilege_recommendations(&status(true, false, PrivilegeMode::Service)),
        vec!["service mode is enabled but the service is not running; check the service"]
    );
    assert_eq!(get_privilege_recommendations(&status(true, false, PrivilegeMode::Auto)).len(), 1);
    assert!(get_privilege_recommendations(&status(false, false, PrivilegeMode::Auto)).is_empty());
    assert!(get_privilege_recommendations(&status(false, false, PrivilegeMode::Direct)).is_empty());
    assert_eq!(get_privilege_recommendations(&status(false, false, PrivilegeMode::Disabled)).len(), 1);
}

#[test]
fn status_reflects_probe() {
    let m = PrivilegeManager::new();
    let s = m.get_privilege_status(true, Some(ServiceStatus::Running));
    assert_eq!(s, status(true, true, PrivilegeMode::Service));
    let s = m.get_privilege_status(true, Some(ServiceStatus::Stopped));
    assert_eq!(s, status(true, false, PrivilegeMode::Service));
    assert_eq!(get_current_privilege_mode(), PrivilegeMode::Service);
}

#[test]
fn smart_proxy_starts_only_disconnected_service() {
    assert!(smart_proxy_operation(&status(true, false, PrivilegeMode::Service)));
    assert!(!smart_proxy_operation(&status(true, true, PrivilegeMode::Service)));
    assert!(!smart_proxy_operation(&status(false, false, PrivilegeMode::Service)));
}

#[test]
fn preference_and_warm_up_decisions() {
    let m = PrivilegeManager::new();
    let proxy = PrivilegedOperation::ResetSystemProxy;
    assert!(m.should_prefer_service_for_operation(&proxy, true));
    assert!(!m.should_prefer_service_for_operation(&proxy, false));
    assert!(m.should_prefer_service_for_operation(&PrivilegedOperation::SetTunMode { enable: true }, false));
    assert!(!m.should_prefer_service_for_operation(&PrivilegedOperation::SetTunMode { enable: false }, false));
    assert!(m.warm_up(false));
    assert!(!m.warm_up(true));
    assert!(matches!(setup_action(Some(ServiceStatus::Running)), None));
    assert!(matches!(setup_action(Some(ServiceStatus::Stopped)), Some(Action::Start)));
    assert!(matches!(setup_action(None), Some(Action::Install)));
}

#[test]
fn service_mode_info_and_self_check() {
    let info = check_service_mode_availability(&status(true, false, PrivilegeMode::Service), Some(ServiceStatus::Stopped));
    assert_eq!(info.service_status.as_deref(), Some("Stopped"));
    assert_eq!(info.benefits.len(), 4);
    let info = check_service_mode_availability(&status(false, false, PrivilegeMode::Service), Some(ServiceStatus::Running));
    assert_eq!(info.service_status, None);
    let m = PrivilegeManager::new();
    let report = test_privilege_system(&m, false, &status(true, false, PrivilegeMode::Service));
    assert_eq!(report.test_results.len(), 3);
    assert_eq!(report.overall_status, "service is not running; install or start it");
    assert_eq!(report.recommendations.len(), 1);
}

#[test]
fn auto_setup_service_mode_answers() {
    assert_eq!(
        auto_setup_service_mode(&status(true, true, PrivilegeMode::Service)),
        Some(Ok("service mode is already enabled and running".to_string()))
    );
    assert_eq!(
        auto_setup_service_mode(&status(false, false, PrivilegeMode::Service)),
        Some(Err("service mode is not available".to_string()))
    );
    assert_eq!(auto_setup_service_mode(&status(true, false, PrivilegeMode::Service)), None);
    assert_eq!(auto_setup_install_outcome(Ok(())), Ok("service mode set up".to_string()));
    assert_eq!(
        auto_setup_install_outcome(Err("no".to_string())),
        Err("service mode setup failed: no".to_string())
    );
}
