use nyanpasu_privilege::{
    Action, Event, PrivilegeManager, PrivilegedOperation, PrivilegedOperationResult, ServiceStatus, Step,
    VergeConfig,
};

/// A stand-in for the service manager, the connection probe and the config store.
struct World {
    connected: bool,
    status: Option<ServiceStatus>,
    /// Whether a fresh install leaves the service running on its own.
    install_starts: bool,
    install_error: Option<String>,
    start_error: Option<String>,
    patch_error: Option<String>,
    config: VergeConfig,
    calls: Vec<String>,
}

fn empty_config() -> VergeConfig {
    VergeConfig {
        enable_system_proxy: None,
        enable_tun_mode: None,
        verge_mixed_port: None,
        system_proxy_bypass: None,
        enable_service_mode: None,
    }
}

impl World {
    fn new(connected: bool, status: Option<ServiceStatus>) -> World {
        World {
            connected,
            status,
            install_starts: true,
            install_error: None,
            start_error: None,
            patch_error: None,
            config: empty_config(),
            calls: Vec::new(),
        }
    }

    fn perform(&mut self, a: Action) -> Event {
        match a {
            Action::CheckConnection => Event::Connection(self.connected),
            Action::QueryStatus => {
                self.calls.push("status".to_string());
                Event::Status(self.status)
            }
            Action::Install => {
                self.calls.push("install".to_string());
                if let Some(e) = &self.install_error {
                    return Event::Completed(Err(e.clone()));
                }
                if self.install_starts {
                    self.status = Some(ServiceStatus::Running);
                    self.connected = true;
                } else {
                    self.status = Some(ServiceStatus::Stopped);
                }
                Event::Completed(Ok(()))
            }
            Action::Start => {
                self.calls.push("start".to_string());
                if let Some(e) = &self.start_error {
                    return Event::Completed(Err(e.clone()));
                }
                self.status = Some(ServiceStatus::Running);
                self.connected = true;
                Event::Completed(Ok(()))
            }
            Action::Stop => {
                self.calls.push("stop".to_string());
                self.status = Some(ServiceStatus::Stopped);
                self.connected = false;
                Event::Completed(Ok(()))
            }
            Action::Patch(p) => {
                self.calls.push("patch".to_string());
                if let Some(e) = &self.patch_error {
                    return Event::Completed(Err(e.clone()));
                }
                self.config.apply(p);
                Event::Completed(Ok(()))
            }
            Action::ReadConfig => Event::Config(self.config.clone()),
            Action::Sleep(_) => {
                self.calls.push("sleep".to_string());
                Event::Slept
            }
        }
    }

    fn lifecycle_calls(&self) -> Vec<String> {
        self.calls
            .iter()
            .filter(|c| ["install", "start", "stop"].contains(&c.as_str()))
            .cloned()
            .collect()
    }
}

fn run(world: &mut World, op: PrivilegedOperation) -> PrivilegedOperationResult {
    let manager = PrivilegeManager::new();
    let (mut r, mut step) = manager.execute_operation(op);
    for _ in 0..100 {
        match step {
            Step::Finish(result) => {
                assert!(r.is_finished());
                return result;
            }
            Step::Perform(a) => {
                let ev = world.perform(a);
                step = r.resume(ev);
            }
        }
    }
    panic!("run did not finish");
}

#[test]
fn not_installed_tun_on_installs_and_retries() {
    let mut w = World::new(false, Some(ServiceStatus::NotInstalled));
    let res = run(&mut w, PrivilegedOperation::SetTunMode { enable: true });
    assert!(res.success);
    assert_eq!(res.handler_used, "service_auto_start");
    assert_eq!(res.message.as_deref(), Some("service was started automatically"));
    assert_eq!(w.lifecycle_calls(), vec!["install".to_string()]);
    assert_eq!(w.config.enable_tun_mode, Some(true));
    assert_eq!(w.config.enable_system_proxy, Some(false));
    assert_eq!(w.config.enable_service_mode, Some(true));
}

#[test]
fn not_installed_without_auto_start_pauses_then_starts() {
    let mut w = World::new(false, Some(ServiceStatus::NotInstalled));
    w.install_starts = false;
    let res = run(&mut w, PrivilegedOperation::SetTunMode { enable: true });
    assert!(res.success);
    assert_eq!(res.handler_used, "service_auto_start");
    assert_eq!(w.lifecycle_calls(), vec!["install".to_string(), "start".to_string()]);
    assert!(w.calls.contains(&"sleep".to_string()));
}

#[test]
fn unavailable_service_disables_proxy_in_config() {
    let mut w = World::new(false, None);
    w.config.enable_system_proxy = Some(true);
    w.config.enable_tun_mode = Some(true);
    let op = PrivilegedOperation::SetSystemProxy { enable: false, port: 7890, bypass: vec![] };
    let res = run(&mut w, op);
    assert!(res.success);
    assert_eq!(res.handler_used, "config_direct");
    assert_eq!(w.config.enable_system_proxy, Some(false));
    assert_eq!(w.config.enable_tun_mode, Some(true));
    assert!(w.lifecycle_calls().is_empty());
}

#[test]
fn unavailable_service_disables_tun_in_config() {
    let mut w = World::new(true, Some(ServiceStatus::Stopped));
    w.config.enable_tun_mode = Some(true);
    let res = run(&mut w, PrivilegedOperation::SetTunMode { enable: false });
    assert!(res.success);
    assert_eq!(res.handler_used, "config_direct");
    assert_eq!(w.config.enable_tun_mode, Some(false));
    assert!(w.lifecycle_calls().is_empty());
}

#[test]
fn running_service_reset_stops_when_idle() {
    let mut w = World::new(true, Some(ServiceStatus::Running));
    w.config.enable_system_proxy = Some(true);
    w.config.enable_tun_mode = Some(false);
    let res = run(&mut w, PrivilegedOperation::ResetSystemProxy);
    assert!(res.success);
    assert_eq!(res.handler_used, "service");
    assert_eq!(res.message, None);
    assert_eq!(w.config.enable_system_proxy, Some(false));
    assert_eq!(w.lifecycle_calls(), vec!["stop".to_string()]);
}

#[test]
fn running_service_reset_keeps_service_for_tun() {
    let mut w = World::new(true, Some(ServiceStatus::Running));
    w.config.enable_system_proxy = Some(true);
    w.config.enable_tun_mode = Some(true);
    let res = run(&mut w, PrivilegedOperation::ResetSystemProxy);
    assert!(res.success);
    assert_eq!(w.config.enable_system_proxy, Some(false));
    assert!(w.lifecycle_calls().is_empty());
}

#[test]
fn update_core_permissions_is_refused_without_calls() {
    let mut w = World::new(false, Some(ServiceStatus::NotInstalled));
    let res = run(&mut w, PrivilegedOperation::UpdateCorePermissions { core_path: "/x".to_string() });
    assert!(!res.success);
    assert!(res.message.as_deref().map_or(false, |m| !m.is_empty()));
    assert!(w.calls.is_empty());
}

#[test]
fn modify_network_settings_is_refused_without_calls() {
    let mut w = World::new(true, Some(ServiceStatus::Running));
    let res = run(&mut w, PrivilegedOperation::ModifyNetworkSettings { dns: Some(vec!["1.1.1.1".to_string()]) });
    assert!(!res.success);
    assert_eq!(res.message.as_deref(), Some("operation not supported by the service"));
    assert!(w.calls.is_empty());
}

#[test]
fn running_service_enable_does_not_install_or_start() {
    let mut w = World::new(true, Some(ServiceStatus::Running));
    let op = PrivilegedOperation::SetSystemProxy {
        enable: true,
        port: 7890,
        bypass: vec!["localhost".to_string(), "127.0.0.1".to_string()],
    };
    let res = run(&mut w, op);
    assert!(res.success);
    assert_eq!(res.handler_used, "service");
    assert_eq!(res.message, None);
    assert!(w.lifecycle_calls().is_empty());
    assert_eq!(w.config.enable_system_proxy, Some(true));
    assert_eq!(w.config.enable_tun_mode, Some(false));
    assert_eq!(w.config.verge_mixed_port, Some(7890));
    assert_eq!(w.config.system_proxy_bypass.as_deref(), Some("localhost,127.0.0.1"));
}

#[test]
fn stopped_service_is_started_before_enabling() {
    let mut w = World::new(false, Some(ServiceStatus::Stopped));
    let res = run(&mut w, PrivilegedOperation::SetTunMode { enable: true });
    assert!(res.success);
    assert_eq!(w.lifecycle_calls(), vec!["start".to_string()]);
}

#[test]
fn failed_install_reports_auto_start_failure() {
    let mut w = World::new(false, Some(ServiceStatus::NotInstalled));
    w.install_error = Some("access denied".to_string());
    let res = run(&mut w, PrivilegedOperation::SetTunMode { enable: true });
    assert!(!res.success);
    assert_eq!(res.handler_used, "service_auto_start_failed");
    assert!(res.message.unwrap().ends_with("access denied"));
}

#[test]
fn service_that_never_comes_up_is_reported() {
    let mut w = World::new(false, Some(ServiceStatus::Stopped));
    // starting "succeeds" but the channel never connects
    w.start_error = None;
    let manager = PrivilegeManager::new();
    let (mut r, mut step) = manager.execute_operation(PrivilegedOperation::SetTunMode { enable: true });
    let result = loop {
        match step {
            Step::Finish(res) => break res,
            Step::Perform(Action::CheckConnection) => step = r.resume(Event::Connection(false)),
            Step::Perform(a) => {
                let ev = w.perform(a);
                step = r.resume(ev);
            }
        }
    };
    assert!(!result.success);
    assert_eq!(result.handler_used, "service_auto_start");
    assert_eq!(result.message.as_deref(), Some("service still unavailable after setup"));
}

#[test]
fn failed_patch_on_service_path_is_a_failure_result() {
    let mut w = World::new(true, Some(ServiceStatus::Running));
    w.patch_error = Some("disk full".to_string());
    let res = run(&mut w, PrivilegedOperation::SetTunMode { enable: true });
    assert!(!res.success);
    assert_eq!(res.handler_used, "service");
    assert_eq!(res.message.as_deref(), Some("operation failed: disk full"));
}

#[test]
fn failed_direct_patch_is_a_failure_result() {
    let mut w = World::new(false, None);
    w.patch_error = Some("locked".to_string());
    let res = run(&mut w, PrivilegedOperation::ResetSystemProxy);
    assert!(!res.success);
    assert_eq!(res.handler_used, "config_direct");
    assert_eq!(res.message.as_deref(), Some("configuration update failed: locked"));
}

#[test]
fn mismatched_answer_ends_the_run() {
    let manager = PrivilegeManager::new();
    let (mut r, step) = manager.execute_operation(PrivilegedOperation::ResetSystemProxy);
    assert!(matches!(step, Step::Perform(Action::CheckConnection)));
    match r.resume(Event::Slept) {
        Step::Finish(res) => assert!(!res.success && res.message.is_some()),
        Step::Perform(_) => panic!("expected the run to end"),
    }
}

#[test]
fn manager_without_service_fails_enabling_and_configures_disabling() {
    let manager = PrivilegeManager { service_handler: None, auto_service_setup: true };
    let (_, step) = manager.execute_operation(PrivilegedOperation::SetTunMode { enable: true });
    match step {
        Step::Finish(res) => {
            assert!(!res.success);
            assert_eq!(res.handler_used, "service_auto_start_failed");
        }
        Step::Perform(_) => panic!("expected an immediate result"),
    }
    let (_, step) = manager.execute_operation(PrivilegedOperation::SetTunMode { enable: false });
    match step {
        Step::Perform(Action::Patch(p)) => assert_eq!(p.enable_tun_mode, Some(false)),
        _ => panic!("expected a direct patch"),
    }
}
