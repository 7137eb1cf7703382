use vstd::prelude::*;
use crate::config::{flag_on, VergeConfig};
use crate::operation::{PrivilegeMode, PrivilegeStatus, PrivilegedOperation, PrivilegedOperationResult};
use crate::text::{comma_split, concat, owned, split_commas, texts, trim, trimmed};

verus! {

/// The bypass entries of a comma-separated list: each piece trimmed, empty
/// ones left out, order kept.
pub open spec fn bypass_entries(pieces: Seq<Seq<char>>) -> Seq<Seq<char>> {
    pieces.map_values(|p: Seq<char>| trimmed(p)).filter(|p: Seq<char>| p.len() > 0)
}

/// Splits a comma-separated bypass list into trimmed, non-empty entries.
pub fn parse_bypass(list: &str) -> (r: Vec<String>)
    ensures
        exists|pieces: Seq<Seq<char>>| comma_split(list@, pieces) && texts(r@) == bypass_entries(pieces),
{
    let pieces = split_commas(list);
    let ghost ps = texts(pieces@);
    let mut out: Vec<String> = Vec::new();
    let mut i: usize = 0;
    while i < pieces.len()
        invariant
            i <= pieces.len(),
            ps == texts(pieces@),
            texts(out@) == bypass_entries(ps.take(i as int)),
        decreases pieces.len() - i,
    {
        let t = trim(pieces[i].as_str());
        proof {
            let pre = ps.take(i as int);
            let next = ps.take(i as int + 1);
            assert(next =~= pre.push(ps[i as int]));
            let f = |p: Seq<char>| trimmed(p);
            assert(next.map_values(f) =~= pre.map_values(f).push(trimmed(ps[i as int])));
            assert(next.map_values(f).drop_last() =~= pre.map_values(f));
        }
        if !t.as_str().is_empty() {
            out.push(t);
        }
        proof {
            reveal(Seq::filter);
            assert(texts(out@) =~= bypass_entries(ps.take(i as int + 1)));
        }
        i = i + 1;
    }
    assert(ps.take(pieces.len() as int) =~= ps);
    out
}

/// The port the proxy listens on: the configured one, else the core's.
pub open spec fn proxy_port(config: VergeConfig, core_port: u16) -> u16 {
    match config.verge_mixed_port {
        Some(p) => p,
        None => core_port,
    }
}

/// A request to turn the system proxy on or off with the configured port and
/// bypass list; `core_port` stands in where no port is configured.
pub fn set_system_proxy(enable: bool, config: &VergeConfig, core_port: u16) -> (r: PrivilegedOperation)
    ensures
        r matches PrivilegedOperation::SetSystemProxy { enable: e, port, bypass } && e == enable
            && port == proxy_port(*config, core_port) && match config.system_proxy_bypass {
            Some(list) => exists|pieces: Seq<Seq<char>>|
                comma_split(list@, pieces) && texts(bypass@) == bypass_entries(pieces),
            None => bypass@.len() == 0,
        },
{
    let port = match config.verge_mixed_port {
        Some(p) => p,
        None => core_port,
    };
    let bypass = match &config.system_proxy_bypass {
        Some(list) => parse_bypass(list.as_str()),
        None => Vec::new(),
    };
    PrivilegedOperation::SetSystemProxy { enable, port, bypass }
}

/// A request to turn TUN mode on or off.
pub fn set_tun_mode(enable: bool) -> (r: PrivilegedOperation)
    ensures
        r == (PrivilegedOperation::SetTunMode { enable }),
{
    PrivilegedOperation::SetTunMode { enable }
}

/// A request to turn the system proxy off unconditionally.
pub fn reset_system_proxy() -> (r: PrivilegedOperation)
    ensures
        r == PrivilegedOperation::ResetSystemProxy,
{
    PrivilegedOperation::ResetSystemProxy
}

/// A request to refresh the permissions of the core binary at `core_path`.
pub fn update_core_permissions(core_path: String) -> (r: PrivilegedOperation)
    ensures
        r == (PrivilegedOperation::UpdateCorePermissions { core_path }),
{
    PrivilegedOperation::UpdateCorePermissions { core_path }
}

/// A request to change network settings such as DNS servers.
pub fn modify_network_settings(dns: Option<Vec<String>>) -> (r: PrivilegedOperation)
    ensures
        r == (PrivilegedOperation::ModifyNetworkSettings { dns }),
{
    PrivilegedOperation::ModifyNetworkSettings { dns }
}

/// The system-proxy request that flips the configured flag (unset is off).
pub fn toggle_system_proxy(config: &VergeConfig, core_port: u16) -> (r: PrivilegedOperation)
    ensures
        r matches PrivilegedOperation::SetSystemProxy { enable, port, .. } && enable == !flag_on(
            config.enable_system_proxy,
        ) && port == proxy_port(*config, core_port),
{
    let current = match config.enable_system_proxy {
        Some(b) => b,
        None => false,
    };
    set_system_proxy(!current, config, core_port)
}

/// The TUN request that flips the configured flag (unset is off).
pub fn toggle_tun_mode(config: &VergeConfig) -> (r: PrivilegedOperation)
    ensures
        r == (PrivilegedOperation::SetTunMode { enable: !flag_on(config.enable_tun_mode) }),
{
    let current = match config.enable_tun_mode {
        Some(b) => b,
        None => false,
    };
    set_tun_mode(!current)
}

pub open spec fn msg_unknown_error() -> Seq<char> {
    "unknown error"@
}

/// The error that a failed result turns into: `context` followed by the
/// result's message, or by a fixed text where it has none.
pub open spec fn failure_text(context: Seq<char>, result: PrivilegedOperationResult) -> Seq<char> {
    context + match result.message {
        Some(m) => m@,
        None => msg_unknown_error(),
    }
}

/// Turns a result into `Ok` on success and into an error carrying its
/// message on failure.
pub fn check_result(context: &str, result: &PrivilegedOperationResult) -> (r: Result<(), String>)
    ensures
        r is Ok <==> result.success,
        r matches Err(e) ==> e@ == failure_text(context@, *result),
{
    if result.success {
        Ok(())
    } else {
        match &result.message {
            Some(m) => Err(concat(context, m.as_str())),
            None => Err(concat(context, "unknown error")),
        }
    }
}

/// Whether the proxy request should first start a service that is installed
/// but not connected.
pub fn smart_proxy_operation(status: &PrivilegeStatus) -> (r: bool)
    ensures
        r == (status.service_available && !status.service_connected),
{
    status.service_available && !status.service_connected
}

pub open spec fn rec_enable_service() -> Seq<char> {
    "enable service mode for smoother privilege handling"@
}

pub open spec fn rec_switch_to_service() -> Seq<char> {
    "direct mode may ask for confirmation on every operation; switch to service mode"@
}

pub open spec fn rec_check_service() -> Seq<char> {
    "service mode is enabled but the service is not running; check the service"@
}

pub open spec fn rec_all_good() -> Seq<char> {
    "service mode is running well"@
}

pub open spec fn rec_disabled() -> Seq<char> {
    "privileged operations are disabled; some features may not work"@
}

/// The guidance shown for a status.
pub open spec fn recommendations(status: PrivilegeStatus) -> Seq<Seq<char>> {
    match status.current_mode {
        PrivilegeMode::Auto => if !status.service_connected && status.service_available {
            seq![rec_enable_service()]
        } else {
            seq![]
        },
        PrivilegeMode::Direct => if status.service_available {
            seq![rec_switch_to_service()]
        } else {
            seq![]
        },
        PrivilegeMode::Service => if !status.service_connected {
            seq![rec_check_service()]
        } else {
            seq![rec_all_good()]
        },
        PrivilegeMode::Disabled => seq![rec_disabled()],
    }
}

/// User guidance for the current mode and the service's state.
pub fn get_privilege_recommendations(status: &PrivilegeStatus) -> (r: Vec<String>)
    ensures
        texts(r@) == recommendations(*status),
{
    let mut out: Vec<String> = Vec::new();
    match status.current_mode {
        PrivilegeMode::Auto => {
            if !status.service_connected && status.service_available {
                out.push(owned("enable service mode for smoother privilege handling"));
            }
        },
        PrivilegeMode::Direct => {
            if status.service_available {
                out.push(
                    owned("direct mode may ask for confirmation on every operation; switch to service mode"),
                );
            }
        },
        PrivilegeMode::Service => {
            if !status.service_connected {
                out.push(owned("service mode is enabled but the service is not running; check the service"));
            } else {
                out.push(owned("service mode is running well"));
            }
        },
        PrivilegeMode::Disabled => {
            out.push(owned("privileged operations are disabled; some features may not work"));
        },
    }
    assert(texts(out@) =~= recommendations(*status));
    out
}

} // verus!
