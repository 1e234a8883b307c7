//! The kernel-cmdline resolver: one pass over the whitespace-separated
//! tokens, dispatching each recognized token to its coercer, applying the
//! acceptance guards, and short-circuiting to a configuration file when the
//! config-file directive appears. Also the scan of the process argument list
//! for an explicit config-file flag.

use vstd::prelude::*;
use vstd::string::StrSliceExecFns;

use crate::coercers::{
    get_bool_value, get_container_pipe_size, get_guest_components_features_value,
    get_guest_components_procs_value, get_string_value, get_timeout, get_url_value,
    get_vsock_port, lenient_bool_of, pipe_size_of, procs_of, features_of, string_value_of,
    timeout_of, url_value_of, vsock_port_of, GuestComponentsFeatures, GuestComponentsProcs,
};
use crate::config::{default_config, AgentConfig, ConfigView};
use crate::errors::ConfigError;
use crate::loglevel::{get_log_level, log_level_of, LogLevel};
use crate::strutil::{find_eq, has_eq, name_of, str_eq, tokenize, tokens_of};

verus! {

/// The recognized keys a `key=value` token can carry, plus `Unknown` for
/// everything else.
#[derive(Clone, Copy, Debug, PartialEq, Eq, Structural)]
pub enum KeyKind {
    ConfigFile,
    Trace,
    Log,
    ServerAddr,
    HotplugTimeout,
    CdhApiTimeout,
    DebugConsoleVport,
    LogVport,
    PassfdListenerPort,
    ContainerPipeSize,
    UnifiedCgroupHierarchy,
    HttpsProxy,
    NoProxy,
    GuestComponentsRestApi,
    GuestComponentsProcs,
    ImageRegistryAuth,
    EnableSignatureVerification,
    ImagePolicyFile,
    SecureStorageIntegrity,
    Unknown,
}

/// The bare flag tokens recognized without an `=`, plus `Unknown`.
#[derive(Clone, Copy, Debug, PartialEq, Eq, Structural)]
pub enum FlagKind {
    DebugConsole,
    DevMode,
    Trace,
    Unknown,
}

/// Which recognized key the name field of a token is, if any.
pub open spec fn key_kind(k: Seq<char>) -> KeyKind {
    if k == "agent.config_file"@ {
        KeyKind::ConfigFile
    } else if k == "agent.trace"@ {
        KeyKind::Trace
    } else if k == "agent.log"@ {
        KeyKind::Log
    } else if k == "agent.server_addr"@ {
        KeyKind::ServerAddr
    } else if k == "agent.hotplug_timeout"@ {
        KeyKind::HotplugTimeout
    } else if k == "agent.cdh_api_timeout"@ {
        KeyKind::CdhApiTimeout
    } else if k == "agent.debug_console_vport"@ {
        KeyKind::DebugConsoleVport
    } else if k == "agent.log_vport"@ {
        KeyKind::LogVport
    } else if k == "agent.passfd_listener_port"@ {
        KeyKind::PassfdListenerPort
    } else if k == "agent.container_pipe_size"@ {
        KeyKind::ContainerPipeSize
    } else if k == "systemd.unified_cgroup_hierarchy"@ {
        KeyKind::UnifiedCgroupHierarchy
    } else if k == "agent.https_proxy"@ {
        KeyKind::HttpsProxy
    } else if k == "agent.no_proxy"@ {
        KeyKind::NoProxy
    } else if k == "agent.guest_components_rest_api"@ {
        KeyKind::GuestComponentsRestApi
    } else if k == "agent.guest_components_procs"@ {
        KeyKind::GuestComponentsProcs
    } else if k == "agent.image_registry_auth"@ {
        KeyKind::ImageRegistryAuth
    } else if k == "agent.enable_signature_verification"@ {
        KeyKind::EnableSignatureVerification
    } else if k == "agent.image_policy_file"@ {
        KeyKind::ImagePolicyFile
    } else if k == "agent.secure_storage_integrity"@ {
        KeyKind::SecureStorageIntegrity
    } else {
        KeyKind::Unknown
    }
}

/// Which recognized bare flag a token without an `=` is, if any.
pub open spec fn flag_kind(t: Seq<char>) -> FlagKind {
    if t == "agent.debug_console"@ {
        FlagKind::DebugConsole
    } else if t == "agent.devmode"@ {
        FlagKind::DevMode
    } else if t == "agent.trace"@ {
        FlagKind::Trace
    } else {
        FlagKind::Unknown
    }
}

/// Classify the name field of a token.
#[verifier::rlimit(100)]
fn classify_key(name: &str) -> (r: KeyKind)
    ensures
        r == key_kind(name@),
{
    if str_eq(name, "agent.config_file") {
        KeyKind::ConfigFile
    } else if str_eq(name, "agent.trace") {
        KeyKind::Trace
    } else if str_eq(name, "agent.log") {
        KeyKind::Log
    } else if str_eq(name, "agent.server_addr") {
        KeyKind::ServerAddr
    } else if str_eq(name, "agent.hotplug_timeout") {
        KeyKind::HotplugTimeout
    } else if str_eq(name, "agent.cdh_api_timeout") {
        KeyKind::CdhApiTimeout
    } else if str_eq(name, "agent.debug_console_vport") {
        KeyKind::DebugConsoleVport
    } else if str_eq(name, "agent.log_vport") {
        KeyKind::LogVport
    } else if str_eq(name, "agent.passfd_listener_port") {
        KeyKind::PassfdListenerPort
    } else if str_eq(name, "agent.container_pipe_size") {
        KeyKind::ContainerPipeSize
    } else if str_eq(name, "systemd.unified_cgroup_hierarchy") {
        KeyKind::UnifiedCgroupHierarchy
    } else if str_eq(name, "agent.https_proxy") {
        KeyKind::HttpsProxy
    } else if str_eq(name, "agent.no_proxy") {
        KeyKind::NoProxy
    } else if str_eq(name, "agent.guest_components_rest_api") {
        KeyKind::GuestComponentsRestApi
    } else if str_eq(name, "agent.guest_components_procs") {
        KeyKind::GuestComponentsProcs
    } else if str_eq(name, "agent.image_registry_auth") {
        KeyKind::ImageRegistryAuth
    } else if str_eq(name, "agent.enable_signature_verification") {
        KeyKind::EnableSignatureVerification
    } else if str_eq(name, "agent.image_policy_file") {
        KeyKind::ImagePolicyFile
    } else if str_eq(name, "agent.secure_storage_integrity") {
        KeyKind::SecureStorageIntegrity
    } else {
        KeyKind::Unknown
    }
}

/// Classify a token without an `=`.
fn classify_flag(t: &str) -> (r: FlagKind)
    ensures
        r == flag_kind(t@),
{
    if str_eq(t, "agent.debug_console") {
        FlagKind::DebugConsole
    } else if str_eq(t, "agent.devmode") {
        FlagKind::DevMode
    } else if str_eq(t, "agent.trace") {
        FlagKind::Trace
    } else {
        FlagKind::Unknown
    }
}

/// What one token does to the in-progress record: carry on with an updated
/// record, short-circuit to a configuration file, or abort with an error.
pub enum TokenStep {
    Cont(ConfigView),
    File(Seq<char>),
    Fail(ConfigError),
}

/// What a whole command line resolves to: a finished record, a configuration
/// file to load instead, or an error.
pub enum CmdlineFold {
    Config(ConfigView),
    File(Seq<char>),
    Fail(ConfigError),
}

/// The result of the token pass, executably: either a record (before the
/// environment override step) or the path of a configuration file to load
/// instead (after which the environment override step is *not* applied).
#[derive(Debug)]
pub enum CmdlineOutcome {
    Config(AgentConfig),
    ConfigFile(String),
}

/// The effect of a single token on the record `c`. A token with an `=` is
/// dispatched on its name; one without is matched against the bare flags.
/// Unrecognized tokens are ignored; durations and vsock ports pass through an
/// acceptance guard that silently drops non-positive values.
pub open spec fn token_step(c: ConfigView, t: Seq<char>) -> TokenStep {
    if has_eq(t) {
        match key_kind(name_of(t)) {
            KeyKind::ConfigFile => match string_value_of(t) {
                Ok(p) => TokenStep::File(p),
                Err(e) => TokenStep::Fail(e),
            },
            KeyKind::Trace => TokenStep::Cont(ConfigView { tracing: lenient_bool_of(t), ..c }),
            KeyKind::Log => match log_level_of(t) {
                Ok(l) => TokenStep::Cont(ConfigView { log_level: l, ..c }),
                Err(e) => TokenStep::Fail(e),
            },
            KeyKind::ServerAddr => match string_value_of(t) {
                Ok(v) => TokenStep::Cont(ConfigView { server_addr: v, ..c }),
                Err(e) => TokenStep::Fail(e),
            },
            KeyKind::HotplugTimeout => match timeout_of(t) {
                Ok(secs) => if secs > 0 {
                    TokenStep::Cont(ConfigView { hotplug_timeout: secs, ..c })
                } else {
                    TokenStep::Cont(c)
                },
                Err(e) => TokenStep::Fail(e),
            },
            KeyKind::CdhApiTimeout => match timeout_of(t) {
                Ok(secs) => if secs > 0 {
                    TokenStep::Cont(ConfigView { cdh_api_timeout: secs, ..c })
                } else {
                    TokenStep::Cont(c)
                },
                Err(e) => TokenStep::Fail(e),
            },
            KeyKind::DebugConsoleVport => match vsock_port_of(t) {
                Ok(p) => if p > 0 {
                    TokenStep::Cont(ConfigView { debug_console_vport: p, ..c })
                } else {
                    TokenStep::Cont(c)
                },
                Err(e) => TokenStep::Fail(e),
            },
            KeyKind::LogVport => match vsock_port_of(t) {
                Ok(p) => if p > 0 {
                    TokenStep::Cont(ConfigView { log_vport: p, ..c })
                } else {
                    TokenStep::Cont(c)
                },
                Err(e) => TokenStep::Fail(e),
            },
            KeyKind::PassfdListenerPort => match vsock_port_of(t) {
                Ok(p) => if p > 0 {
                    TokenStep::Cont(ConfigView { passfd_listener_port: p, ..c })
                } else {
                    TokenStep::Cont(c)
                },
                Err(e) => TokenStep::Fail(e),
            },
            KeyKind::ContainerPipeSize => match pipe_size_of(t) {
                Ok(v) => TokenStep::Cont(ConfigView { container_pipe_size: v, ..c }),
                Err(e) => TokenStep::Fail(e),
            },
            KeyKind::UnifiedCgroupHierarchy => TokenStep::Cont(
                ConfigView { unified_cgroup_hierarchy: lenient_bool_of(t), ..c },
            ),
            KeyKind::HttpsProxy => match url_value_of(t) {
                Ok(u) => TokenStep::Cont(ConfigView { https_proxy: u, ..c }),
                Err(e) => TokenStep::Fail(e),
            },
            KeyKind::NoProxy => match string_value_of(t) {
                Ok(v) => TokenStep::Cont(ConfigView { no_proxy: v, ..c }),
                Err(e) => TokenStep::Fail(e),
            },
            KeyKind::GuestComponentsRestApi => match features_of(t) {
                Ok(f) => TokenStep::Cont(ConfigView { guest_components_rest_api: f, ..c }),
                Err(e) => TokenStep::Fail(e),
            },
            KeyKind::GuestComponentsProcs => match procs_of(t) {
                Ok(p) => TokenStep::Cont(ConfigView { guest_components_procs: p, ..c }),
                Err(e) => TokenStep::Fail(e),
            },
            KeyKind::ImageRegistryAuth => match string_value_of(t) {
                Ok(v) => TokenStep::Cont(ConfigView { image_registry_auth: v, ..c }),
                Err(e) => TokenStep::Fail(e),
            },
            KeyKind::EnableSignatureVerification => TokenStep::Cont(
                ConfigView { enable_signature_verification: lenient_bool_of(t), ..c },
            ),
            KeyKind::ImagePolicyFile => match string_value_of(t) {
                Ok(v) => TokenStep::Cont(ConfigView { image_policy_file: v, ..c }),
                Err(e) => TokenStep::Fail(e),
            },
            KeyKind::SecureStorageIntegrity => TokenStep::Cont(
                ConfigView { secure_storage_integrity: lenient_bool_of(t), ..c },
            ),
            KeyKind::Unknown => TokenStep::Cont(c),
        }
    } else {
        match flag_kind(t) {
            FlagKind::DebugConsole => TokenStep::Cont(ConfigView { debug_console: true, ..c }),
            FlagKind::DevMode => TokenStep::Cont(ConfigView { dev_mode: true, ..c }),
            FlagKind::Trace => TokenStep::Cont(ConfigView { tracing: true, ..c }),
            FlagKind::Unknown => TokenStep::Cont(c),
        }
    }
}

/// Fold the token effects over the record, left to right, stopping at the
/// first short-circuit or failure.
pub open spec fn cmdline_fold(c: ConfigView, toks: Seq<Seq<char>>) -> CmdlineFold
    decreases toks.len(),
{
    if toks.len() == 0 {
        CmdlineFold::Config(c)
    } else {
        match token_step(c, toks[0]) {
            TokenStep::Cont(c2) => cmdline_fold(c2, toks.drop_first()),
            TokenStep::File(p) => CmdlineFold::File(p),
            TokenStep::Fail(e) => CmdlineFold::Fail(e),
        }
    }
}

/// What a whole command line resolves to, starting from the default record.
pub open spec fn resolve_cmdline(s: Seq<char>) -> CmdlineFold {
    cmdline_fold(default_config(), tokens_of(s))
}


/// Write one field of the record, leaving every other field alone. Each
/// setter carries the struct-update fact `apply_token` composes with.
fn set_debug_console(config: &mut AgentConfig, v: bool)
    ensures
        final(config)@ == (ConfigView { debug_console: v, ..old(config)@ }),
{
    config.debug_console = v;
    proof {
        assert(config@ =~= (ConfigView { debug_console: v, ..old(config)@ }));
    }
}

fn set_dev_mode(config: &mut AgentConfig, v: bool)
    ensures
        final(config)@ == (ConfigView { dev_mode: v, ..old(config)@ }),
{
    config.dev_mode = v;
    proof {
        assert(config@ =~= (ConfigView { dev_mode: v, ..old(config)@ }));
    }
}

fn set_tracing(config: &mut AgentConfig, v: bool)
    ensures
        final(config)@ == (ConfigView { tracing: v, ..old(config)@ }),
{
    config.tracing = v;
    proof {
        assert(config@ =~= (ConfigView { tracing: v, ..old(config)@ }));
    }
}

fn set_log_level(config: &mut AgentConfig, v: LogLevel)
    ensures
        final(config)@ == (ConfigView { log_level: v, ..old(config)@ }),
{
    config.log_level = v;
    proof {
        assert(config@ =~= (ConfigView { log_level: v, ..old(config)@ }));
    }
}

fn set_server_addr(config: &mut AgentConfig, v: String)
    ensures
        final(config)@ == (ConfigView { server_addr: v@, ..old(config)@ }),
{
    config.server_addr = v;
    proof {
        assert(config@ =~= (ConfigView { server_addr: config.server_addr@, ..old(config)@ }));
    }
}

fn set_hotplug_timeout(config: &mut AgentConfig, v: u64)
    ensures
        final(config)@ == (ConfigView { hotplug_timeout: v, ..old(config)@ }),
{
    config.hotplug_timeout = v;
    proof {
        assert(config@ =~= (ConfigView { hotplug_timeout: v, ..old(config)@ }));
    }
}

fn set_cdh_api_timeout(config: &mut AgentConfig, v: u64)
    ensures
        final(config)@ == (ConfigView { cdh_api_timeout: v, ..old(config)@ }),
{
    config.cdh_api_timeout = v;
    proof {
        assert(config@ =~= (ConfigView { cdh_api_timeout: v, ..old(config)@ }));
    }
}

fn set_debug_console_vport(config: &mut AgentConfig, v: i32)
    ensures
        final(config)@ == (ConfigView { debug_console_vport: v, ..old(config)@ }),
{
    config.debug_console_vport = v;
    proof {
        assert(config@ =~= (ConfigView { debug_console_vport: v, ..old(config)@ }));
    }
}

fn set_log_vport(config: &mut AgentConfig, v: i32)
    ensures
        final(config)@ == (ConfigView { log_vport: v, ..old(config)@ }),
{
    config.log_vport = v;
    proof {
        assert(config@ =~= (ConfigView { log_vport: v, ..old(config)@ }));
    }
}

fn set_passfd_listener_port(config: &mut AgentConfig, v: i32)
    ensures
        final(config)@ == (ConfigView { passfd_listener_port: v, ..old(config)@ }),
{
    config.passfd_listener_port = v;
    proof {
        assert(config@ =~= (ConfigView { passfd_listener_port: v, ..old(config)@ }));
    }
}

fn set_container_pipe_size(config: &mut AgentConfig, v: i32)
    ensures
        final(config)@ == (ConfigView { container_pipe_size: v, ..old(config)@ }),
{
    config.container_pipe_size = v;
    proof {
        assert(config@ =~= (ConfigView { container_pipe_size: v, ..old(config)@ }));
    }
}

fn set_unified_cgroup_hierarchy(config: &mut AgentConfig, v: bool)
    ensures
        final(config)@ == (ConfigView { unified_cgroup_hierarchy: v, ..old(config)@ }),
{
    config.unified_cgroup_hierarchy = v;
    proof {
        assert(config@ =~= (ConfigView { unified_cgroup_hierarchy: v, ..old(config)@ }));
    }
}

fn set_https_proxy(config: &mut AgentConfig, v: String)
    ensures
        final(config)@ == (ConfigView { https_proxy: v@, ..old(config)@ }),
{
    config.https_proxy = v;
    proof {
        assert(config@ =~= (ConfigView { https_proxy: config.https_proxy@, ..old(config)@ }));
    }
}

fn set_no_proxy(config: &mut AgentConfig, v: String)
    ensures
        final(config)@ == (ConfigView { no_proxy: v@, ..old(config)@ }),
{
    config.no_proxy = v;
    proof {
        assert(config@ =~= (ConfigView { no_proxy: config.no_proxy@, ..old(config)@ }));
    }
}

fn set_guest_components_rest_api(config: &mut AgentConfig, v: GuestComponentsFeatures)
    ensures
        final(config)@ == (ConfigView { guest_components_rest_api: v, ..old(config)@ }),
{
    config.guest_components_rest_api = v;
    proof {
        assert(config@ =~= (ConfigView { guest_components_rest_api: v, ..old(config)@ }));
    }
}

fn set_guest_components_procs(config: &mut AgentConfig, v: GuestComponentsProcs)
    ensures
        final(config)@ == (ConfigView { guest_components_procs: v, ..old(config)@ }),
{
    config.guest_components_procs = v;
    proof {
        assert(config@ =~= (ConfigView { guest_components_procs: v, ..old(config)@ }));
    }
}

fn set_image_registry_auth(config: &mut AgentConfig, v: String)
    ensures
        final(config)@ == (ConfigView { image_registry_auth: v@, ..old(config)@ }),
{
    config.image_registry_auth = v;
    proof {
        assert(config@ =~= (ConfigView {
            image_registry_auth: config.image_registry_auth@,
            ..old(config)@
        }));
    }
}

fn set_enable_signature_verification(config: &mut AgentConfig, v: bool)
    ensures
        final(config)@ == (ConfigView { enable_signature_verification: v, ..old(config)@ }),
{
    config.enable_signature_verification = v;
    proof {
        assert(config@ =~= (ConfigView { enable_signature_verification: v, ..old(config)@ }));
    }
}

fn set_image_policy_file(config: &mut AgentConfig, v: String)
    ensures
        final(config)@ == (ConfigView { image_policy_file: v@, ..old(config)@ }),
{
    config.image_policy_file = v;
    proof {
        assert(config@ =~= (ConfigView {
            image_policy_file: config.image_policy_file@,
            ..old(config)@
        }));
    }
}

fn set_secure_storage_integrity(config: &mut AgentConfig, v: bool)
    ensures
        final(config)@ == (ConfigView { secure_storage_integrity: v, ..old(config)@ }),
{
    config.secure_storage_integrity = v;
    proof {
        assert(config@ =~= (ConfigView { secure_storage_integrity: v, ..old(config)@ }));
    }
}

/// Apply one recognized `key=value` token whose value is a string, a log
/// level or a lenient boolean, exactly as the matching `token_step` arm says.
fn apply_kv_text(config: &mut AgentConfig, param: &str, kind: KeyKind) -> (r: Result<
    (),
    ConfigError,
>)
    requires
        has_eq(param@),
        key_kind(name_of(param@)) == kind,
        kind == KeyKind::Trace || kind == KeyKind::Log || kind == KeyKind::ServerAddr || kind
            == KeyKind::UnifiedCgroupHierarchy || kind == KeyKind::HttpsProxy || kind
            == KeyKind::NoProxy,
    ensures
        ({
            let step = token_step(old(config)@, param@);
            match r {
                Ok(_) => step matches TokenStep::Cont(cv) && final(config)@ == cv,
                Err(e) => step == TokenStep::Fail(e),
            }
        }),
{
    match kind {
        KeyKind::Trace => match get_bool_value(param) {
            Ok(b) => {
                set_tracing(config, b);
                Ok(())
            },
            Err(e) => Err(e),
        },
        KeyKind::Log => match get_log_level(param) {
            Ok(l) => {
                set_log_level(config, l);
                Ok(())
            },
            Err(e) => Err(e),
        },
        KeyKind::ServerAddr => match get_string_value(param) {
            Ok(v) => {
                set_server_addr(config, v);
                Ok(())
            },
            Err(e) => Err(e),
        },
        KeyKind::UnifiedCgroupHierarchy => match get_bool_value(param) {
            Ok(b) => {
                set_unified_cgroup_hierarchy(config, b);
                Ok(())
            },
            Err(e) => Err(e),
        },
        KeyKind::HttpsProxy => match get_url_value(param) {
            Ok(u) => {
                set_https_proxy(config, u);
                Ok(())
            },
            Err(e) => Err(e),
        },
        _ => match get_string_value(param) {
            Ok(v) => {
                set_no_proxy(config, v);
                Ok(())
            },
            Err(e) => Err(e),
        },
    }
}

/// Apply one recognized numeric `key=value` token (timeouts, vsock ports,
/// pipe size), with the acceptance guards, exactly as the matching
/// `token_step` arm says.
fn apply_kv_numeric(config: &mut AgentConfig, param: &str, kind: KeyKind) -> (r: Result<
    (),
    ConfigError,
>)
    requires
        has_eq(param@),
        key_kind(name_of(param@)) == kind,
        kind == KeyKind::HotplugTimeout || kind == KeyKind::CdhApiTimeout || kind
            == KeyKind::DebugConsoleVport || kind == KeyKind::LogVport || kind
            == KeyKind::PassfdListenerPort || kind == KeyKind::ContainerPipeSize,
    ensures
        ({
            let step = token_step(old(config)@, param@);
            match r {
                Ok(_) => step matches TokenStep::Cont(cv) && final(config)@ == cv,
                Err(e) => step == TokenStep::Fail(e),
            }
        }),
{
    match kind {
        KeyKind::HotplugTimeout => match get_timeout(param) {
            Ok(secs) => {
                if secs > 0 {
                    set_hotplug_timeout(config, secs);
                }
                Ok(())
            },
            Err(e) => Err(e),
        },
        KeyKind::CdhApiTimeout => match get_timeout(param) {
            Ok(secs) => {
                if secs > 0 {
                    set_cdh_api_timeout(config, secs);
                }
                Ok(())
            },
            Err(e) => Err(e),
        },
        KeyKind::DebugConsoleVport => match get_vsock_port(param) {
            Ok(p) => {
                if p > 0 {
                    set_debug_console_vport(config, p);
                }
                Ok(())
            },
            Err(e) => Err(e),
        },
        KeyKind::LogVport => match get_vsock_port(param) {
            Ok(p) => {
                if p > 0 {
                    set_log_vport(config, p);
                }
                Ok(())
            },
            Err(e) => Err(e),
        },
        KeyKind::PassfdListenerPort => match get_vsock_port(param) {
            Ok(p) => {
                if p > 0 {
                    set_passfd_listener_port(config, p);
                }
                Ok(())
            },
            Err(e) => Err(e),
        },
        _ => match get_container_pipe_size(param) {
            Ok(v) => {
                set_container_pipe_size(config, v);
                Ok(())
            },
            Err(e) => Err(e),
        },
    }
}

/// Apply one recognized guest-components or image-pull `key=value` token,
/// exactly as the matching `token_step` arm says.
fn apply_kv_guest(config: &mut AgentConfig, param: &str, kind: KeyKind) -> (r: Result<
    (),
    ConfigError,
>)
    requires
        has_eq(param@),
        key_kind(name_of(param@)) == kind,
        kind == KeyKind::GuestComponentsRestApi || kind == KeyKind::GuestComponentsProcs || kind
            == KeyKind::ImageRegistryAuth || kind == KeyKind::EnableSignatureVerification || kind
            == KeyKind::ImagePolicyFile || kind == KeyKind::SecureStorageIntegrity,
    ensures
        ({
            let step = token_step(old(config)@, param@);
            match r {
                Ok(_) => step matches TokenStep::Cont(cv) && final(config)@ == cv,
                Err(e) => step == TokenStep::Fail(e),
            }
        }),
{
    match kind {
        KeyKind::GuestComponentsRestApi => match get_guest_components_features_value(param) {
            Ok(f) => {
                set_guest_components_rest_api(config, f);
                Ok(())
            },
            Err(e) => Err(e),
        },
        KeyKind::GuestComponentsProcs => match get_guest_components_procs_value(param) {
            Ok(p) => {
                set_guest_components_procs(config, p);
                Ok(())
            },
            Err(e) => Err(e),
        },
        KeyKind::ImageRegistryAuth => match get_string_value(param) {
            Ok(v) => {
                set_image_registry_auth(config, v);
                Ok(())
            },
            Err(e) => Err(e),
        },
        KeyKind::EnableSignatureVerification => match get_bool_value(param) {
            Ok(b) => {
                set_enable_signature_verification(config, b);
                Ok(())
            },
            Err(e) => Err(e),
        },
        KeyKind::ImagePolicyFile => match get_string_value(param) {
            Ok(v) => {
                set_image_policy_file(config, v);
                Ok(())
            },
            Err(e) => Err(e),
        },
        _ => match get_bool_value(param) {
            Ok(b) => {
                set_secure_storage_integrity(config, b);
                Ok(())
            },
            Err(e) => Err(e),
        },
    }
}

/// Apply one token to the record, exactly as `token_step` describes. `Ok` with
/// a path is the config-file short-circuit; an `Err` aborts the resolution.
fn apply_token(config: &mut AgentConfig, param: &str) -> (r: Result<Option<String>, ConfigError>)
    ensures
        ({
            let step = token_step(old(config)@, param@);
            match r {
                Ok(directive) => match directive {
                    Some(p) => step == TokenStep::File(p@) && final(config)@ == old(config)@,
                    None => step matches TokenStep::Cont(cv) && final(config)@ == cv,
                },
                Err(e) => step == TokenStep::Fail(e),
            }
        }),
{
    match find_eq(param) {
        None => {
            match classify_flag(param) {
                FlagKind::DebugConsole => {
                    set_debug_console(config, true);
                },
                FlagKind::DevMode => {
                    set_dev_mode(config, true);
                },
                FlagKind::Trace => {
                    set_tracing(config, true);
                },
                FlagKind::Unknown => {},
            }
            Ok(None)
        },
        Some(i) => {
            let name = param.substring_char(0, i);
            let kind = classify_key(name);
            match kind {
                KeyKind::ConfigFile => match get_string_value(param) {
                    Ok(p) => Ok(Some(p)),
                    Err(e) => Err(e),
                },
                KeyKind::Unknown => Ok(None),
                KeyKind::Trace | KeyKind::Log | KeyKind::ServerAddr
                | KeyKind::UnifiedCgroupHierarchy | KeyKind::HttpsProxy | KeyKind::NoProxy => {
                    match apply_kv_text(config, param, kind) {
                        Ok(()) => Ok(None),
                        Err(e) => Err(e),
                    }
                },
                KeyKind::HotplugTimeout | KeyKind::CdhApiTimeout | KeyKind::DebugConsoleVport
                | KeyKind::LogVport | KeyKind::PassfdListenerPort
                | KeyKind::ContainerPipeSize => {
                    match apply_kv_numeric(config, param, kind) {
                        Ok(()) => Ok(None),
                        Err(e) => Err(e),
                    }
                },
                KeyKind::GuestComponentsRestApi | KeyKind::GuestComponentsProcs
                | KeyKind::ImageRegistryAuth | KeyKind::EnableSignatureVerification
                | KeyKind::ImagePolicyFile | KeyKind::SecureStorageIntegrity => {
                    match apply_kv_guest(config, param, kind) {
                        Ok(()) => Ok(None),
                        Err(e) => Err(e),
                    }
                },
            }
        },
    }
}

impl AgentConfig {
    /// Resolve the text of a kernel command line into either a record (to
    /// which the caller then applies the environment override step) or the
    /// path of a configuration file to load instead (to which it must not).
    pub fn from_cmdline_str(cmdline: &str) -> (r: Result<CmdlineOutcome, ConfigError>)
        ensures
            ({
                let f = resolve_cmdline(cmdline@);
                match r {
                    Ok(CmdlineOutcome::Config(c)) => f == CmdlineFold::Config(c@),
                    Ok(CmdlineOutcome::ConfigFile(p)) => f == CmdlineFold::File(p@),
                    Err(e) => f == CmdlineFold::Fail(e),
                }
            }),
    {
        let tokens = tokenize(cmdline);
        let ghost tv = tokens.deep_view();
        let mut config = AgentConfig::default();
        let n = tokens.len();
        let mut idx: usize = 0;
        proof {
            assert(tv.subrange(0, tv.len() as int) =~= tv);
        }
        while idx < n
            invariant
                n == tokens.len(),
                idx <= n,
                tv == tokens.deep_view(),
                tv.len() == n,
                tokens_of(cmdline@) == tv,
                resolve_cmdline(cmdline@) == cmdline_fold(
                    config@,
                    tv.subrange(idx as int, n as int),
                ),
            decreases n - idx,
        {
            let ghost rest = tv.subrange(idx as int, n as int);
            let param = &tokens[idx];
            proof {
                assert(rest[0] == tv[idx as int]);
                assert(tv[idx as int] == param@);
                assert(rest.drop_first() =~= tv.subrange(idx as int + 1, n as int));
            }
            match apply_token(&mut config, param.as_str()) {
                Ok(directive) => match directive {
                    Some(path) => {
                        return Ok(CmdlineOutcome::ConfigFile(path));
                    },
                    None => {},
                },
                Err(e) => {
                    return Err(e);
                },
            }
            idx += 1;
        }
        proof {
            assert(tv.subrange(n as int, n as int).len() == 0);
        }
        Ok(CmdlineOutcome::Config(config))
    }
}

/// What the process argument list directs: no config-file flag, a flag with
/// its path, or a flag with the path missing (a fatal usage error).
pub enum ArgDirective {
    Absent,
    Path(Seq<char>),
    PathMissing,
}

/// The executable counterpart of `ArgDirective`.
#[derive(Debug)]
pub enum ConfigFileArg {
    Absent,
    Path(String),
    PathMissing,
}

/// The directive the first `--config` or `-c` flag in the argument list
/// gives: the argument right after it is the path.
pub open spec fn arg_directive(args: Seq<Seq<char>>) -> ArgDirective
    decreases args.len(),
{
    if args.len() == 0 {
        ArgDirective::Absent
    } else if args[0] == "--config"@ || args[0] == "-c"@ {
        if args.len() >= 2 {
            ArgDirective::Path(args[1])
        } else {
            ArgDirective::PathMissing
        }
    } else {
        arg_directive(args.drop_first())
    }
}

/// Scan the process argument list for the config-file flag.
pub fn config_file_from_args(args: &Vec<String>) -> (r: ConfigFileArg)
    ensures
        ({
            let d = arg_directive(args.deep_view());
            match r {
                ConfigFileArg::Absent => d == ArgDirective::Absent,
                ConfigFileArg::Path(p) => d == ArgDirective::Path(p@),
                ConfigFileArg::PathMissing => d == ArgDirective::PathMissing,
            }
        }),
{
    let n = args.len();
    let ghost av = args.deep_view();
    let mut i: usize = 0;
    proof {
        assert(av.subrange(0, av.len() as int) =~= av);
    }
    while i < n
        invariant
            n == args.len(),
            i <= n,
            av == args.deep_view(),
            av.len() == n,
            arg_directive(av) == arg_directive(av.subrange(i as int, n as int)),
        decreases n - i,
    {
        let ghost rest = av.subrange(i as int, n as int);
        proof {
            assert(rest[0] == av[i as int]);
            assert(av[i as int] == args[i as int]@);
            assert(rest.drop_first() =~= av.subrange(i as int + 1, n as int));
            if rest.len() >= 2 {
                assert(rest[1] == av[i as int + 1]);
                assert(av[i as int + 1] == args[i as int + 1]@);
            }
        }
        let a = &args[i];
        if str_eq(a.as_str(), "--config") || str_eq(a.as_str(), "-c") {
            if i + 1 < n {
                let p = &args[i + 1];
                return ConfigFileArg::Path(p.clone());
            } else {
                return ConfigFileArg::PathMissing;
            }
        }
        i += 1;
    }
    ConfigFileArg::Absent
}

} // verus!
