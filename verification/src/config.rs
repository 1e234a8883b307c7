//! The resolved configuration record, its defaults, the all-optional overlay
//! produced from a structured file, and the environment override step.

use vstd::prelude::*;
use vstd::string::StrSliceExecFns;
use vstd::string::StringExecFns;

use crate::coercers::{
    get_bool_value, lenient_bool_of, GuestComponentsFeatures, GuestComponentsProcs,
};
use crate::errors::ConfigError;
use crate::loglevel::{level_of, logrus_to_slog_level, LogLevel};

verus! {

/// The final, fully populated configuration record. Every field has a
/// default; resolution never leaves one unset.
#[derive(Debug)]
pub struct AgentConfig {
    pub debug_console: bool,
    pub dev_mode: bool,
    pub log_level: LogLevel,
    /// Hotplug timeout in whole seconds.
    pub hotplug_timeout: u64,
    /// Confidential-data-hub API timeout in whole seconds.
    pub cdh_api_timeout: u64,
    pub debug_console_vport: i32,
    pub log_vport: i32,
    pub container_pipe_size: i32,
    pub server_addr: String,
    pub passfd_listener_port: i32,
    pub unified_cgroup_hierarchy: bool,
    pub tracing: bool,
    /// Whether the embedding process detected seccomp support. Resolution
    /// never writes it; it stays at its default here.
    pub supports_seccomp: bool,
    pub https_proxy: String,
    pub no_proxy: String,
    pub guest_components_rest_api: GuestComponentsFeatures,
    pub guest_components_procs: GuestComponentsProcs,
    pub image_registry_auth: String,
    pub secure_storage_integrity: bool,
    pub enable_signature_verification: bool,
    pub image_policy_file: String,
}

/// The mathematical shape of a configuration record: strings as character
/// sequences, everything else as itself.
#[verifier::ext_equal]
pub struct ConfigView {
    pub debug_console: bool,
    pub dev_mode: bool,
    pub log_level: LogLevel,
    pub hotplug_timeout: u64,
    pub cdh_api_timeout: u64,
    pub debug_console_vport: i32,
    pub log_vport: i32,
    pub container_pipe_size: i32,
    pub server_addr: Seq<char>,
    pub passfd_listener_port: i32,
    pub unified_cgroup_hierarchy: bool,
    pub tracing: bool,
    pub supports_seccomp: bool,
    pub https_proxy: Seq<char>,
    pub no_proxy: Seq<char>,
    pub guest_components_rest_api: GuestComponentsFeatures,
    pub guest_components_procs: GuestComponentsProcs,
    pub image_registry_auth: Seq<char>,
    pub secure_storage_integrity: bool,
    pub enable_signature_verification: bool,
    pub image_policy_file: Seq<char>,
}

impl View for AgentConfig {
    type V = ConfigView;

    open spec fn view(&self) -> ConfigView {
        ConfigView {
            debug_console: self.debug_console,
            dev_mode: self.dev_mode,
            log_level: self.log_level,
            hotplug_timeout: self.hotplug_timeout,
            cdh_api_timeout: self.cdh_api_timeout,
            debug_console_vport: self.debug_console_vport,
            log_vport: self.log_vport,
            container_pipe_size: self.container_pipe_size,
            server_addr: self.server_addr@,
            passfd_listener_port: self.passfd_listener_port,
            unified_cgroup_hierarchy: self.unified_cgroup_hierarchy,
            tracing: self.tracing,
            supports_seccomp: self.supports_seccomp,
            https_proxy: self.https_proxy@,
            no_proxy: self.no_proxy@,
            guest_components_rest_api: self.guest_components_rest_api,
            guest_components_procs: self.guest_components_procs,
            image_registry_auth: self.image_registry_auth@,
            secure_storage_integrity: self.secure_storage_integrity,
            enable_signature_verification: self.enable_signature_verification,
            image_policy_file: self.image_policy_file@,
        }
    }
}

/// The default record: conservative flags, `Info` logging, a three-second
/// hotplug timeout, a fifty-second confidential-data-hub API timeout, ports
/// and pipe size at zero, and the agent's standard vsock listening address.
pub open spec fn default_config() -> ConfigView {
    ConfigView {
        debug_console: false,
        dev_mode: false,
        log_level: LogLevel::Info,
        hotplug_timeout: 3,
        cdh_api_timeout: 50,
        debug_console_vport: 0,
        log_vport: 0,
        container_pipe_size: 0,
        server_addr: "vsock://-1:1024"@,
        passfd_listener_port: 0,
        unified_cgroup_hierarchy: false,
        tracing: false,
        supports_seccomp: false,
        https_proxy: ""@,
        no_proxy: ""@,
        guest_components_rest_api: GuestComponentsFeatures::Resource,
        guest_components_procs: GuestComponentsProcs::ApiServerRest,
        image_registry_auth: ""@,
        secure_storage_integrity: false,
        enable_signature_verification: false,
        image_policy_file: ""@,
    }
}

impl Default for AgentConfig {
    /// Build the default record.
    fn default() -> (c: AgentConfig)
        ensures
            c@ == default_config(),
    {
        let c = AgentConfig {
            debug_console: false,
            dev_mode: false,
            log_level: LogLevel::Info,
            hotplug_timeout: 3,
            cdh_api_timeout: 50,
            debug_console_vport: 0,
            log_vport: 0,
            container_pipe_size: 0,
            server_addr: String::from_str("vsock://-1:1024"),
            passfd_listener_port: 0,
            unified_cgroup_hierarchy: false,
            tracing: false,
            supports_seccomp: false,
            https_proxy: String::new(),
            no_proxy: String::new(),
            guest_components_rest_api: GuestComponentsFeatures::Resource,
            guest_components_procs: GuestComponentsProcs::ApiServerRest,
            image_registry_auth: String::new(),
            secure_storage_integrity: false,
            enable_signature_verification: false,
            image_policy_file: String::new(),
        };
        proof {
            reveal_strlit("");
            assert(""@ =~= Seq::<char>::empty());
            assert(c@ =~= default_config());
        }
        c
    }
}

/// The all-optional mirror of the record, as a structured file provides it:
/// a present field overwrites the default, an absent one leaves it alone.
pub struct AgentConfigBuilder {
    pub debug_console: Option<bool>,
    pub dev_mode: Option<bool>,
    /// Textual level name, translated through the severity mapping.
    pub log_level: Option<String>,
    /// Hotplug timeout in whole seconds.
    pub hotplug_timeout: Option<u64>,
    /// Confidential-data-hub API timeout in whole seconds.
    pub cdh_api_timeout: Option<u64>,
    pub debug_console_vport: Option<i32>,
    pub log_vport: Option<i32>,
    pub container_pipe_size: Option<i32>,
    pub server_addr: Option<String>,
    pub passfd_listener_port: Option<i32>,
    pub unified_cgroup_hierarchy: Option<bool>,
    pub tracing: Option<bool>,
    pub https_proxy: Option<String>,
    pub no_proxy: Option<String>,
    pub guest_components_rest_api: Option<GuestComponentsFeatures>,
    pub guest_components_procs: Option<GuestComponentsProcs>,
    pub image_registry_auth: Option<String>,
    pub secure_storage_integrity: Option<bool>,
    pub enable_signature_verification: Option<bool>,
    pub image_policy_file: Option<String>,
}

/// The mathematical shape of an overlay.
#[verifier::ext_equal]
pub struct BuilderView {
    pub debug_console: Option<bool>,
    pub dev_mode: Option<bool>,
    pub log_level: Option<Seq<char>>,
    pub hotplug_timeout: Option<u64>,
    pub cdh_api_timeout: Option<u64>,
    pub debug_console_vport: Option<i32>,
    pub log_vport: Option<i32>,
    pub container_pipe_size: Option<i32>,
    pub server_addr: Option<Seq<char>>,
    pub passfd_listener_port: Option<i32>,
    pub unified_cgroup_hierarchy: Option<bool>,
    pub tracing: Option<bool>,
    pub https_proxy: Option<Seq<char>>,
    pub no_proxy: Option<Seq<char>>,
    pub guest_components_rest_api: Option<GuestComponentsFeatures>,
    pub guest_components_procs: Option<GuestComponentsProcs>,
    pub image_registry_auth: Option<Seq<char>>,
    pub secure_storage_integrity: Option<bool>,
    pub enable_signature_verification: Option<bool>,
    pub image_policy_file: Option<Seq<char>>,
}

impl View for AgentConfigBuilder {
    type V = BuilderView;

    open spec fn view(&self) -> BuilderView {
        BuilderView {
            debug_console: self.debug_console,
            dev_mode: self.dev_mode,
            log_level: self.log_level.deep_view(),
            hotplug_timeout: self.hotplug_timeout,
            cdh_api_timeout: self.cdh_api_timeout,
            debug_console_vport: self.debug_console_vport,
            log_vport: self.log_vport,
            container_pipe_size: self.container_pipe_size,
            server_addr: self.server_addr.deep_view(),
            passfd_listener_port: self.passfd_listener_port,
            unified_cgroup_hierarchy: self.unified_cgroup_hierarchy,
            tracing: self.tracing,
            https_proxy: self.https_proxy.deep_view(),
            no_proxy: self.no_proxy.deep_view(),
            guest_components_rest_api: self.guest_components_rest_api,
            guest_components_procs: self.guest_components_procs,
            image_registry_auth: self.image_registry_auth.deep_view(),
            secure_storage_integrity: self.secure_storage_integrity,
            enable_signature_verification: self.enable_signature_verification,
            image_policy_file: self.image_policy_file.deep_view(),
        }
    }
}

/// The empty overlay: every field absent.
pub open spec fn empty_builder() -> BuilderView {
    BuilderView {
        debug_console: None,
        dev_mode: None,
        log_level: None,
        hotplug_timeout: None,
        cdh_api_timeout: None,
        debug_console_vport: None,
        log_vport: None,
        container_pipe_size: None,
        server_addr: None,
        passfd_listener_port: None,
        unified_cgroup_hierarchy: None,
        tracing: None,
        https_proxy: None,
        no_proxy: None,
        guest_components_rest_api: None,
        guest_components_procs: None,
        image_registry_auth: None,
        secure_storage_integrity: None,
        enable_signature_verification: None,
        image_policy_file: None,
    }
}

impl Default for AgentConfigBuilder {
    /// Build the empty overlay.
    fn default() -> (b: AgentConfigBuilder)
        ensures
            b@ == empty_builder(),
    {
        let b = AgentConfigBuilder {
            debug_console: None,
            dev_mode: None,
            log_level: None,
            hotplug_timeout: None,
            cdh_api_timeout: None,
            debug_console_vport: None,
            log_vport: None,
            container_pipe_size: None,
            server_addr: None,
            passfd_listener_port: None,
            unified_cgroup_hierarchy: None,
            tracing: None,
            https_proxy: None,
            no_proxy: None,
            guest_components_rest_api: None,
            guest_components_procs: None,
            image_registry_auth: None,
            secure_storage_integrity: None,
            enable_signature_verification: None,
            image_policy_file: None,
        };
        proof {
            assert(b@ =~= empty_builder());
        }
        b
    }
}

/// Apply an overlay onto a record as a left-fold over its fields: every
/// present field overwrites, every absent one leaves the record alone. A
/// present textual log level goes through the severity mapping; a name
/// outside the vocabulary fails the whole application.
pub open spec fn apply_overlay(c: ConfigView, b: BuilderView) -> Result<ConfigView, ConfigError> {
    if b.log_level is Some && level_of(b.log_level->0) is Err {
        Err(ConfigError::InvalidLogLevel)
    } else {
        Ok(
            ConfigView {
                debug_console: if b.debug_console is Some {
                    b.debug_console->0
                } else {
                    c.debug_console
                },
                dev_mode: if b.dev_mode is Some {
                    b.dev_mode->0
                } else {
                    c.dev_mode
                },
                log_level: if b.log_level is Some {
                    level_of(b.log_level->0)->Ok_0
                } else {
                    c.log_level
                },
                hotplug_timeout: if b.hotplug_timeout is Some {
                    b.hotplug_timeout->0
                } else {
                    c.hotplug_timeout
                },
                cdh_api_timeout: if b.cdh_api_timeout is Some {
                    b.cdh_api_timeout->0
                } else {
                    c.cdh_api_timeout
                },
                debug_console_vport: if b.debug_console_vport is Some {
                    b.debug_console_vport->0
                } else {
                    c.debug_console_vport
                },
                log_vport: if b.log_vport is Some {
                    b.log_vport->0
                } else {
                    c.log_vport
                },
                container_pipe_size: if b.container_pipe_size is Some {
                    b.container_pipe_size->0
                } else {
                    c.container_pipe_size
                },
                server_addr: if b.server_addr is Some {
                    b.server_addr->0
                } else {
                    c.server_addr
                },
                passfd_listener_port: if b.passfd_listener_port is Some {
                    b.passfd_listener_port->0
                } else {
                    c.passfd_listener_port
                },
                unified_cgroup_hierarchy: if b.unified_cgroup_hierarchy is Some {
                    b.unified_cgroup_hierarchy->0
                } else {
                    c.unified_cgroup_hierarchy
                },
                tracing: if b.tracing is Some {
                    b.tracing->0
                } else {
                    c.tracing
                },
                supports_seccomp: c.supports_seccomp,
                https_proxy: if b.https_proxy is Some {
                    b.https_proxy->0
                } else {
                    c.https_proxy
                },
                no_proxy: if b.no_proxy is Some {
                    b.no_proxy->0
                } else {
                    c.no_proxy
                },
                guest_components_rest_api: if b.guest_components_rest_api is Some {
                    b.guest_components_rest_api->0
                } else {
                    c.guest_components_rest_api
                },
                guest_components_procs: if b.guest_components_procs is Some {
                    b.guest_components_procs->0
                } else {
                    c.guest_components_procs
                },
                image_registry_auth: if b.image_registry_auth is Some {
                    b.image_registry_auth->0
                } else {
                    c.image_registry_auth
                },
                secure_storage_integrity: if b.secure_storage_integrity is Some {
                    b.secure_storage_integrity->0
                } else {
                    c.secure_storage_integrity
                },
                enable_signature_verification: if b.enable_signature_verification is Some {
                    b.enable_signature_verification->0
                } else {
                    c.enable_signature_verification
                },
                image_policy_file: if b.image_policy_file is Some {
                    b.image_policy_file->0
                } else {
                    c.image_policy_file
                },
            },
        )
    }
}

/// The boolean the tracing environment variable's value denotes: the lenient
/// rule applied to a synthetic `name=value` token built from it. A value that
/// itself contains `=` therefore coerces to `false`.
pub open spec fn env_tracing(v: Seq<char>) -> bool {
    lenient_bool_of("KATA_AGENT_TRACING="@ + v)
}

/// The record after the environment override step: a set server address
/// variable overwrites verbatim, a set log level variable overwrites only
/// when its name is recognized, a set tracing variable overwrites with the
/// lenient boolean coercion of its value.
pub open spec fn env_overlay(
    c: ConfigView,
    server_addr: Option<Seq<char>>,
    log_level: Option<Seq<char>>,
    tracing: Option<Seq<char>>,
) -> ConfigView {
    let c1 = if server_addr is Some {
        ConfigView { server_addr: server_addr->0, ..c }
    } else {
        c
    };
    let c2 = if log_level is Some && level_of(log_level->0) is Ok {
        ConfigView { log_level: level_of(log_level->0)->Ok_0, ..c1 }
    } else {
        c1
    };
    if tracing is Some {
        ConfigView { tracing: env_tracing(tracing->0), ..c2 }
    } else {
        c2
    }
}

impl AgentConfig {
    /// Overlay a structured file's builder onto the default record.
    #[verifier::rlimit(100)]
    pub fn from_builder(builder: AgentConfigBuilder) -> (r: Result<AgentConfig, ConfigError>)
        ensures
            ({
                let o = apply_overlay(default_config(), builder@);
                match r {
                    Ok(c) => o == Ok::<ConfigView, ConfigError>(c@),
                    Err(e) => o == Err::<ConfigView, ConfigError>(e),
                }
            }),
    {
        let ghost bv = builder@;
        let AgentConfigBuilder {
            debug_console,
            dev_mode,
            log_level,
            hotplug_timeout,
            cdh_api_timeout,
            debug_console_vport,
            log_vport,
            container_pipe_size,
            server_addr,
            passfd_listener_port,
            unified_cgroup_hierarchy,
            tracing,
            https_proxy,
            no_proxy,
            guest_components_rest_api,
            guest_components_procs,
            image_registry_auth,
            secure_storage_integrity,
            enable_signature_verification,
            image_policy_file,
        } = builder;
        let d = AgentConfig::default();
        let log_level_val = match log_level {
            Some(l) => match logrus_to_slog_level(l.as_str()) {
                Ok(lv) => lv,
                Err(_) => {
                    return Err(ConfigError::InvalidLogLevel);
                },
            },
            None => d.log_level,
        };
        let config = AgentConfig {
            debug_console: match debug_console {
                Some(v) => v,
                None => d.debug_console,
            },
            dev_mode: match dev_mode {
                Some(v) => v,
                None => d.dev_mode,
            },
            log_level: log_level_val,
            hotplug_timeout: match hotplug_timeout {
                Some(v) => v,
                None => d.hotplug_timeout,
            },
            cdh_api_timeout: match cdh_api_timeout {
                Some(v) => v,
                None => d.cdh_api_timeout,
            },
            debug_console_vport: match debug_console_vport {
                Some(v) => v,
                None => d.debug_console_vport,
            },
            log_vport: match log_vport {
                Some(v) => v,
                None => d.log_vport,
            },
            container_pipe_size: match container_pipe_size {
                Some(v) => v,
                None => d.container_pipe_size,
            },
            server_addr: match server_addr {
                Some(v) => v,
                None => d.server_addr,
            },
            passfd_listener_port: match passfd_listener_port {
                Some(v) => v,
                None => d.passfd_listener_port,
            },
            unified_cgroup_hierarchy: match unified_cgroup_hierarchy {
                Some(v) => v,
                None => d.unified_cgroup_hierarchy,
            },
            tracing: match tracing {
                Some(v) => v,
                None => d.tracing,
            },
            supports_seccomp: d.supports_seccomp,
            https_proxy: match https_proxy {
                Some(v) => v,
                None => d.https_proxy,
            },
            no_proxy: match no_proxy {
                Some(v) => v,
                None => d.no_proxy,
            },
            guest_components_rest_api: match guest_components_rest_api {
                Some(v) => v,
                None => d.guest_components_rest_api,
            },
            guest_components_procs: match guest_components_procs {
                Some(v) => v,
                None => d.guest_components_procs,
            },
            image_registry_auth: match image_registry_auth {
                Some(v) => v,
                None => d.image_registry_auth,
            },
            secure_storage_integrity: match secure_storage_integrity {
                Some(v) => v,
                None => d.secure_storage_integrity,
            },
            enable_signature_verification: match enable_signature_verification {
                Some(v) => v,
                None => d.enable_signature_verification,
            },
            image_policy_file: match image_policy_file {
                Some(v) => v,
                None => d.image_policy_file,
            },
        };
        proof {
            assert(config@ =~= apply_overlay(default_config(), bv)->Ok_0);
        }
        Ok(config)
    }

    /// Apply the environment override step. The three arguments are the
    /// looked-up values of the server address, log level and tracing
    /// variables, in that order; the caller performs the lookup.
    pub fn override_config_from_envs(
        &mut self,
        server_addr: Option<String>,
        log_level: Option<String>,
        tracing: Option<String>,
    )
        ensures
            final(self)@ == env_overlay(
                old(self)@,
                server_addr.deep_view(),
                log_level.deep_view(),
                tracing.deep_view(),
            ),
    {
        if let Some(addr) = server_addr {
            self.server_addr = addr;
        }
        if let Some(l) = log_level {
            match logrus_to_slog_level(l.as_str()) {
                Ok(lv) => {
                    self.log_level = lv;
                },
                Err(_) => {},
            }
        }
        if let Some(v) = tracing {
            let mut token = String::from_str("KATA_AGENT_TRACING=");
            token.append(v.as_str());
            match get_bool_value(token.as_str()) {
                Ok(b) => {
                    self.tracing = b;
                },
                Err(_) => {
                    self.tracing = false;
                },
            }
        }
    }
}

} // verus!
