use vstd::prelude::*;

verus! {

/// The persisted settings that privileged operations read and change.
/// `None` is a setting that was never written.
#[derive(Clone, Debug)]
pub struct VergeConfig {
    pub enable_system_proxy: Option<bool>,
    pub enable_tun_mode: Option<bool>,
    pub verge_mixed_port: Option<u16>,
    pub system_proxy_bypass: Option<String>,
    pub enable_service_mode: Option<bool>,
}

/// A partial update of `VergeConfig`: a `None` field is left unchanged.
#[derive(Clone, Debug)]
pub struct VergePatch {
    pub enable_system_proxy: Option<bool>,
    pub enable_tun_mode: Option<bool>,
    pub verge_mixed_port: Option<u16>,
    pub system_proxy_bypass: Option<String>,
    pub enable_service_mode: Option<bool>,
}

/// One field after a partial update.
pub open spec fn patched<T>(old: Option<T>, new: Option<T>) -> Option<T> {
    match new {
        Some(v) => Some(v),
        None => old,
    }
}

/// The configuration after `p` is applied to `c`.
pub open spec fn apply_patch(c: VergeConfig, p: VergePatch) -> VergeConfig {
    VergeConfig {
        enable_system_proxy: patched(c.enable_system_proxy, p.enable_system_proxy),
        enable_tun_mode: patched(c.enable_tun_mode, p.enable_tun_mode),
        verge_mixed_port: patched(c.verge_mixed_port, p.verge_mixed_port),
        system_proxy_bypass: patched(c.system_proxy_bypass, p.system_proxy_bypass),
        enable_service_mode: patched(c.enable_service_mode, p.enable_service_mode),
    }
}

/// A flag as the service-gated features read it: unset means off.
pub open spec fn flag_on(f: Option<bool>) -> bool {
    f == Some(true)
}

/// No feature that needs the privileged service is on.
pub open spec fn is_idle(c: VergeConfig) -> bool {
    !flag_on(c.enable_system_proxy) && !flag_on(c.enable_tun_mode)
}

fn patch_field<T>(old: Option<T>, new: Option<T>) -> (r: Option<T>)
    ensures
        r == patched(old, new),
{
    match new {
        Some(v) => Some(v),
        None => old,
    }
}

fn flag_value(f: Option<bool>) -> (r: bool)
    ensures
        r == flag_on(f),
{
    match f {
        Some(b) => b,
        None => false,
    }
}

impl VergePatch {
    /// A patch that changes nothing.
    pub fn empty() -> (r: VergePatch)
        ensures
            r.enable_system_proxy.is_none(),
            r.enable_tun_mode.is_none(),
            r.verge_mixed_port.is_none(),
            r.system_proxy_bypass.is_none(),
            r.enable_service_mode.is_none(),
    {
        VergePatch {
            enable_system_proxy: None,
            enable_tun_mode: None,
            verge_mixed_port: None,
            system_proxy_bypass: None,
            enable_service_mode: None,
        }
    }

    /// A patch that sets the system-proxy flag and nothing else.
    pub fn system_proxy_only(enable: bool) -> (r: VergePatch)
        ensures
            r.enable_system_proxy == Some(enable),
            r.enable_tun_mode.is_none(),
            r.verge_mixed_port.is_none(),
            r.system_proxy_bypass.is_none(),
            r.enable_service_mode.is_none(),
    {
        VergePatch { enable_system_proxy: Some(enable), ..VergePatch::empty() }
    }

    /// A patch that sets the TUN flag and nothing else.
    pub fn tun_mode_only(enable: bool) -> (r: VergePatch)
        ensures
            r.enable_system_proxy.is_none(),
            r.enable_tun_mode == Some(enable),
            r.verge_mixed_port.is_none(),
            r.system_proxy_bypass.is_none(),
            r.enable_service_mode.is_none(),
    {
        VergePatch { enable_tun_mode: Some(enable), ..VergePatch::empty() }
    }

    /// A patch that marks service mode as enabled and nothing else.
    pub fn service_mode_on() -> (r: VergePatch)
        ensures
            r.enable_system_proxy.is_none(),
            r.enable_tun_mode.is_none(),
            r.verge_mixed_port.is_none(),
            r.system_proxy_bypass.is_none(),
            r.enable_service_mode == Some(true),
    {
        VergePatch { enable_service_mode: Some(true), ..VergePatch::empty() }
    }
}

impl VergeConfig {
    /// Applies a partial update: set fields replace, unset fields stay.
    pub fn apply(&mut self, p: VergePatch)
        ensures
            *final(self) == apply_patch(*old(self), p),
    {
        self.enable_system_proxy = patch_field(self.enable_system_proxy, p.enable_system_proxy);
        self.enable_tun_mode = patch_field(self.enable_tun_mode, p.enable_tun_mode);
        self.verge_mixed_port = patch_field(self.verge_mixed_port, p.verge_mixed_port);
        self.system_proxy_bypass = patch_field(self.system_proxy_bypass.clone(), p.system_proxy_bypass);
        self.enable_service_mode = patch_field(self.enable_service_mode, p.enable_service_mode);
    }

    /// Whether neither the system proxy nor TUN mode is on.
    pub fn is_idle(&self) -> (r: bool)
        ensures
            r == is_idle(*self),
    {
        !flag_value(self.enable_system_proxy) && !flag_value(self.enable_tun_mode)
    }
}

} // verus!
