use agent_config::cmdline::CmdlineOutcome;
use agent_config::{
    config_file_from_args, AgentConfig, ConfigError, ConfigFileArg, GuestComponentsFeatures,
    GuestComponentsProcs, LogLevel,
};

const TEST_SERVER_ADDR: &str = "vsock://-1:1024";

#[derive(Debug)]
struct TestData<'a> {
    contents: &'a str,
    env_vars: Vec<(&'a str, &'a str)>,
    debug_console: bool,
    dev_mode: bool,
    log_level: LogLevel,
    hotplug_timeout: u64,
    container_pipe_size: i32,
    server_addr: &'a str,
    unified_cgroup_hierarchy: bool,
    tracing: bool,
    https_proxy: &'a str,
    no_proxy: &'a str,
    guest_components_rest_api: GuestComponentsFeatures,
    guest_components_procs: GuestComponentsProcs,
    image_registry_auth: &'a str,
    secure_storage_integrity: bool,
    enable_signature_verification: bool,
    image_policy_file: &'a str,
}

impl Default for TestData<'_> {
    fn default() -> Self {
        TestData {
            contents: "",
            env_vars: Vec::new(),
            debug_console: false,
            dev_mode: false,
            log_level: LogLevel::Info,
            hotplug_timeout: 3,
            container_pipe_size: 0,
            server_addr: TEST_SERVER_ADDR,
            unified_cgroup_hierarchy: false,
            tracing: false,
            https_proxy: "",
            no_proxy: "",
            guest_components_rest_api: GuestComponentsFeatures::Resource,
            guest_components_procs: GuestComponentsProcs::ApiServerRest,
            image_registry_auth: "",
            secure_storage_integrity: false,
            enable_signature_verification: false,
            image_policy_file: "",
        }
    }
}

fn resolve(contents: &str, env_vars: &[(&str, &str)]) -> AgentConfig {
    let lookup = |name: &str| -> Option<String> {
        env_vars.iter().find(|(n, _)| *n == name).map(|(_, v)| v.to_string())
    };
    match AgentConfig::from_cmdline_str(contents).expect("Failed to parse command line") {
        CmdlineOutcome::Config(mut config) => {
            config.override_config_from_envs(
                lookup("KATA_AGENT_SERVER_ADDR"),
                lookup("KATA_AGENT_LOG_LEVEL"),
                lookup("KATA_AGENT_TRACING"),
            );
            config
        },
        CmdlineOutcome::ConfigFile(path) => {
            panic!("unexpected config file directive: {}", path)
        },
    }
}

#[test]
fn test_from_cmdline_str() {
    let tests = &[
        TestData {
            contents: "agent.debug_consolex agent.devmode",
            dev_mode: true,
            ..Default::default()
        },
        TestData {
            contents: "agent.debug_console agent.devmodex",
            debug_console: true,
            ..Default::default()
        },
        TestData { contents: "agent.logx=debug", ..Default::default() },
        TestData {
            contents: "agent.log=debug",
            log_level: LogLevel::Debug,
            ..Default::default()
        },
        TestData {
            contents: "agent.log=debug",
            env_vars: vec![("KATA_AGENT_LOG_LEVEL", "trace")],
            log_level: LogLevel::Trace,
            ..Default::default()
        },
        TestData { contents: "", ..Default::default() },
        TestData { contents: "foo", ..Default::default() },
        TestData { contents: "foo bar", ..Default::default() },
        TestData { contents: "foo agent bar", ..Default::default() },
        TestData { contents: "foo debug_console agent bar devmode", ..Default::default() },
        TestData {
            contents: "agent.debug_console",
            debug_console: true,
            ..Default::default()
        },
        TestData {
            contents: "   agent.debug_console ",
            debug_console: true,
            ..Default::default()
        },
        TestData {
            contents: "agent.debug_console foo",
            debug_console: true,
            ..Default::default()
        },
        TestData {
            contents: " agent.debug_console foo",
            debug_console: true,
            ..Default::default()
        },
        TestData {
            contents: "foo agent.debug_console bar",
            debug_console: true,
            ..Default::default()
        },
        TestData {
            contents: "foo agent.debug_console",
            debug_console: true,
            ..Default::default()
        },
        TestData {
            contents: "foo agent.debug_console ",
            debug_console: true,
            ..Default::default()
        },
        TestData { contents: "agent.devmode", dev_mode: true, ..Default::default() },
        TestData { contents: "   agent.devmode ", dev_mode: true, ..Default::default() },
        TestData { contents: "agent.devmode foo", dev_mode: true, ..Default::default() },
        TestData { contents: " agent.devmode foo", dev_mode: true, ..Default::default() },
        TestData { contents: "foo agent.devmode bar", dev_mode: true, ..Default::default() },
        TestData { contents: "foo agent.devmode", dev_mode: true, ..Default::default() },
        TestData { contents: "foo agent.devmode ", dev_mode: true, ..Default::default() },
        TestData {
            contents: "agent.devmode agent.debug_console",
            debug_console: true,
            dev_mode: true,
            ..Default::default()
        },
        TestData {
            contents:
                "agent.devmode agent.debug_console agent.hotplug_timeout=100 systemd.unified_cgroup_hierarchy=a",
            debug_console: true,
            dev_mode: true,
            hotplug_timeout: 100,
            ..Default::default()
        },
        TestData {
            contents:
                "agent.devmode agent.debug_console agent.hotplug_timeout=0 systemd.unified_cgroup_hierarchy=11",
            debug_console: true,
            dev_mode: true,
            unified_cgroup_hierarchy: true,
            ..Default::default()
        },
        TestData {
            contents:
                "agent.devmode agent.debug_console agent.container_pipe_size=2097152 systemd.unified_cgroup_hierarchy=false",
            debug_console: true,
            dev_mode: true,
            container_pipe_size: 2097152,
            ..Default::default()
        },
        TestData {
            contents:
                "agent.devmode agent.debug_console agent.container_pipe_size=100 systemd.unified_cgroup_hierarchy=true",
            debug_console: true,
            dev_mode: true,
            container_pipe_size: 100,
            unified_cgroup_hierarchy: true,
            ..Default::default()
        },
        TestData {
            contents:
                "agent.devmode agent.debug_console agent.container_pipe_size=0 systemd.unified_cgroup_hierarchy=0",
            debug_console: true,
            dev_mode: true,
            ..Default::default()
        },
        TestData {
            contents:
                "agent.devmode agent.debug_console agent.container_pip_siz=100 systemd.unified_cgroup_hierarchy=1",
            debug_console: true,
            dev_mode: true,
            unified_cgroup_hierarchy: true,
            ..Default::default()
        },
        TestData {
            contents: "",
            env_vars: vec![("KATA_AGENT_SERVER_ADDR", "foo")],
            server_addr: "foo",
            ..Default::default()
        },
        TestData {
            contents: "",
            env_vars: vec![("KATA_AGENT_SERVER_ADDR", "=")],
            server_addr: "=",
            ..Default::default()
        },
        TestData {
            contents: "",
            env_vars: vec![("KATA_AGENT_SERVER_ADDR", "=foo")],
            server_addr: "=foo",
            ..Default::default()
        },
        TestData {
            contents: "",
            env_vars: vec![("KATA_AGENT_SERVER_ADDR", "foo=bar=baz=")],
            server_addr: "foo=bar=baz=",
            ..Default::default()
        },
        TestData {
            contents: "",
            env_vars: vec![("KATA_AGENT_SERVER_ADDR", "unix:///tmp/foo.socket")],
            server_addr: "unix:///tmp/foo.socket",
            ..Default::default()
        },
        TestData {
            contents: "",
            env_vars: vec![("KATA_AGENT_SERVER_ADDR", "unix://@/tmp/foo.socket")],
            server_addr: "unix://@/tmp/foo.socket",
            ..Default::default()
        },
        TestData {
            contents: "agent.server_addr=unix:///tmp/ignored.socket",
            env_vars: vec![("KATA_AGENT_SERVER_ADDR", "unix:///tmp/foo.socket")],
            server_addr: "unix:///tmp/foo.socket",
            ..Default::default()
        },
        TestData {
            contents: "",
            env_vars: vec![("KATA_AGENT_LOG_LEVEL", "")],
            log_level: LogLevel::Info,
            ..Default::default()
        },
        TestData {
            contents: "",
            env_vars: vec![("KATA_AGENT_LOG_LEVEL", "invalid")],
            ..Default::default()
        },
        TestData {
            contents: "",
            env_vars: vec![("KATA_AGENT_LOG_LEVEL", "debug")],
            log_level: LogLevel::Debug,
            ..Default::default()
        },
        TestData {
            contents: "",
            env_vars: vec![("KATA_AGENT_LOG_LEVEL", "debugger")],
            log_level: LogLevel::Info,
            ..Default::default()
        },
        TestData {
            contents: "server_addr=unix:///tmp/foo.socket",
            server_addr: TEST_SERVER_ADDR,
            ..Default::default()
        },
        TestData {
            contents: "agent.server_address=unix:///tmp/foo.socket",
            server_addr: TEST_SERVER_ADDR,
            ..Default::default()
        },
        TestData {
            contents: "agent.server_addr=unix:///tmp/foo.socket",
            server_addr: "unix:///tmp/foo.socket",
            ..Default::default()
        },
        TestData {
            contents: " agent.server_addr=unix:///tmp/foo.socket",
            server_addr: "unix:///tmp/foo.socket",
            ..Default::default()
        },
        TestData {
            contents: " agent.server_addr=unix:///tmp/foo.socket a",
            server_addr: "unix:///tmp/foo.socket",
            ..Default::default()
        },
        TestData { contents: "trace", tracing: false, ..Default::default() },
        TestData { contents: ".trace", tracing: false, ..Default::default() },
        TestData { contents: "agent.tracer", tracing: false, ..Default::default() },
        TestData { contents: "agent.trac", tracing: false, ..Default::default() },
        TestData { contents: "agent.trace", tracing: true, ..Default::default() },
        TestData { contents: "agent.trace=true", tracing: true, ..Default::default() },
        TestData { contents: "agent.trace=false", tracing: false, ..Default::default() },
        TestData { contents: "agent.trace=0", tracing: false, ..Default::default() },
        TestData { contents: "agent.trace=1", tracing: true, ..Default::default() },
        TestData { contents: "agent.trace=a", tracing: false, ..Default::default() },
        TestData { contents: "agent.trace=foo", tracing: false, ..Default::default() },
        TestData { contents: "agent.trace=.", tracing: false, ..Default::default() },
        TestData { contents: "agent.trace=,", tracing: false, ..Default::default() },
        TestData {
            contents: "",
            env_vars: vec![("KATA_AGENT_TRACING", "")],
            tracing: false,
            ..Default::default()
        },
        TestData {
            contents: "",
            env_vars: vec![("KATA_AGENT_TRACING", "''")],
            tracing: false,
            ..Default::default()
        },
        TestData {
            contents: "",
            env_vars: vec![("KATA_AGENT_TRACING", "0")],
            tracing: false,
            ..Default::default()
        },
        TestData {
            contents: "",
            env_vars: vec![("KATA_AGENT_TRACING", ".")],
            tracing: false,
            ..Default::default()
        },
        TestData {
            contents: "",
            env_vars: vec![("KATA_AGENT_TRACING", ",")],
            tracing: false,
            ..Default::default()
        },
        TestData {
            contents: "",
            env_vars: vec![("KATA_AGENT_TRACING", "foo")],
            tracing: false,
            ..Default::default()
        },
        TestData {
            contents: "",
            env_vars: vec![("KATA_AGENT_TRACING", "1")],
            tracing: true,
            ..Default::default()
        },
        TestData {
            contents: "",
            env_vars: vec![("KATA_AGENT_TRACING", "true")],
            tracing: true,
            ..Default::default()
        },
        TestData {
            contents: "agent.https_proxy=http://proxy.url.com:81/",
            https_proxy: "http://proxy.url.com:81/",
            ..Default::default()
        },
        TestData {
            contents: "agent.https_proxy=http://192.168.1.100:81/",
            https_proxy: "http://192.168.1.100:81/",
            ..Default::default()
        },
        TestData {
            contents: "agent.no_proxy=*.internal.url.com",
            no_proxy: "*.internal.url.com",
            ..Default::default()
        },
        TestData {
            contents: "agent.no_proxy=192.168.1.0/24,172.16.0.0/12",
            no_proxy: "192.168.1.0/24,172.16.0.0/12",
            ..Default::default()
        },
        TestData {
            contents: "agent.guest_components_rest_api=attestation",
            guest_components_rest_api: GuestComponentsFeatures::Attestation,
            ..Default::default()
        },
        TestData {
            contents: "agent.guest_components_rest_api=resource",
            guest_components_rest_api: GuestComponentsFeatures::Resource,
            ..Default::default()
        },
        TestData {
            contents: "agent.guest_components_rest_api=all",
            guest_components_rest_api: GuestComponentsFeatures::All,
            ..Default::default()
        },
        TestData {
            contents: "agent.guest_components_procs=api-server-rest",
            guest_components_procs: GuestComponentsProcs::ApiServerRest,
            ..Default::default()
        },
        TestData {
            contents: "agent.guest_components_procs=confidential-data-hub",
            guest_components_procs: GuestComponentsProcs::ConfidentialDataHub,
            ..Default::default()
        },
        TestData {
            contents: "agent.guest_components_procs=attestation-agent",
            guest_components_procs: GuestComponentsProcs::AttestationAgent,
            ..Default::default()
        },
        TestData {
            contents: "agent.guest_components_procs=none",
            guest_components_procs: GuestComponentsProcs::NoProcs,
            ..Default::default()
        },
        TestData {
            contents: "agent.image_registry_auth=file:///root/.docker/config.json",
            image_registry_auth: "file:///root/.docker/config.json",
            ..Default::default()
        },
        TestData {
            contents: "agent.image_registry_auth=kbs:///default/credentials/test",
            image_registry_auth: "kbs:///default/credentials/test",
            ..Default::default()
        },
        TestData { contents: "", secure_storage_integrity: false, ..Default::default() },
        TestData {
            contents: "agent.secure_storage_integrity=true",
            secure_storage_integrity: true,
            ..Default::default()
        },
        TestData {
            contents: "agent.secure_storage_integrity=false",
            secure_storage_integrity: false,
            ..Default::default()
        },
        TestData {
            contents: "agent.secure_storage_integrity=1",
            secure_storage_integrity: true,
            ..Default::default()
        },
        TestData {
            contents: "agent.secure_storage_integrity=0",
            secure_storage_integrity: false,
            ..Default::default()
        },
        TestData {
            contents: "agent.enable_signature_verification=true",
            enable_signature_verification: true,
            ..Default::default()
        },
        TestData {
            contents: "agent.image_policy_file=kbs:///default/image-policy/test",
            image_policy_file: "kbs:///default/image-policy/test",
            ..Default::default()
        },
        TestData {
            contents: "agent.image_policy_file=file:///etc/image-policy.json",
            image_policy_file: "file:///etc/image-policy.json",
            ..Default::default()
        },
    ];

    for (i, d) in tests.iter().enumerate() {
        let msg = format!("test[{}]: {:?}", i, d);
        let config = resolve(d.contents, &d.env_vars);

        assert_eq!(d.debug_console, config.debug_console, "{}", msg);
        assert_eq!(d.dev_mode, config.dev_mode, "{}", msg);
        assert_eq!(d.unified_cgroup_hierarchy, config.unified_cgroup_hierarchy, "{}", msg);
        assert_eq!(d.log_level, config.log_level, "{}", msg);
        assert_eq!(d.hotplug_timeout, config.hotplug_timeout, "{}", msg);
        assert_eq!(d.container_pipe_size, config.container_pipe_size, "{}", msg);
        assert_eq!(d.server_addr, config.server_addr, "{}", msg);
        assert_eq!(d.tracing, config.tracing, "{}", msg);
        assert_eq!(d.https_proxy, config.https_proxy, "{}", msg);
        assert_eq!(d.no_proxy, config.no_proxy, "{}", msg);
        assert_eq!(d.guest_components_rest_api, config.guest_components_rest_api, "{}", msg);
        assert_eq!(d.guest_components_procs, config.guest_components_procs, "{}", msg);
        assert_eq!(d.image_registry_auth, config.image_registry_auth, "{}", msg);
        assert_eq!(d.secure_storage_integrity, config.secure_storage_integrity, "{}", msg);
        assert_eq!(
            d.enable_signature_verification, config.enable_signature_verification,
            "{}",
            msg
        );
        assert_eq!(d.image_policy_file, config.image_policy_file, "{}", msg);
    }
}

#[test]
fn test_cmdline_aborts_on_bad_recognized_token() {
    assert_eq!(
        AgentConfig::from_cmdline_str("agent.container_pipe_size=-1").unwrap_err(),
        ConfigError::ContainerPipeSizeNegative
    );
    assert_eq!(
        AgentConfig::from_cmdline_str("agent.log=nonsense").unwrap_err(),
        ConfigError::InvalidLogLevel
    );
    assert_eq!(
        AgentConfig::from_cmdline_str("agent.guest_components_rest_api=bogus").unwrap_err(),
        ConfigError::InvalidGuestComponentsRestApi
    );
    assert_eq!(
        AgentConfig::from_cmdline_str("agent.server_addr=").unwrap_err(),
        ConfigError::MissingValue
    );
    assert_eq!(
        AgentConfig::from_cmdline_str("agent.https_proxy=notaurl").unwrap_err(),
        ConfigError::InvalidUrl
    );
}

#[test]
fn test_cmdline_guards_and_boundaries() {
    // Guard rejection: zero stays at the three-second default, a positive
    // value lands exactly.
    let c = resolve("agent.hotplug_timeout=0", &[]);
    assert_eq!(c.hotplug_timeout, 3);
    let c = resolve("agent.hotplug_timeout=100", &[]);
    assert_eq!(c.hotplug_timeout, 100);

    // Pipe size boundary: zero is accepted and stored as zero.
    let c = resolve("agent.container_pipe_size=0", &[]);
    assert_eq!(c.container_pipe_size, 0);

    // Vsock ports: non-positive values are dropped, positive ones stored.
    let c = resolve("agent.debug_console_vport=0 agent.log_vport=-5 agent.passfd_listener_port=7", &[]);
    assert_eq!(c.debug_console_vport, 0);
    assert_eq!(c.log_vport, 0);
    assert_eq!(c.passfd_listener_port, 7);
}

#[test]
fn test_cmdline_config_file_short_circuit() {
    match AgentConfig::from_cmdline_str("agent.devmode agent.config_file=/etc/agent.toml agent.debug_console").unwrap() {
        CmdlineOutcome::ConfigFile(path) => assert_eq!(path, "/etc/agent.toml"),
        CmdlineOutcome::Config(_) => panic!("expected the config file directive"),
    }
    // A malformed directive aborts.
    assert_eq!(
        AgentConfig::from_cmdline_str("agent.config_file=").unwrap_err(),
        ConfigError::MissingValue
    );
}

#[test]
fn test_config_file_from_args() {
    let args: Vec<String> = vec![];
    assert!(matches!(config_file_from_args(&args), ConfigFileArg::Absent));

    let args: Vec<String> = vec!["--config".to_string(), "/tmp/config.toml".to_string()];
    match config_file_from_args(&args) {
        ConfigFileArg::Path(p) => assert_eq!(p, "/tmp/config.toml"),
        _ => panic!("expected a path"),
    }

    let args: Vec<String> = vec!["serve".to_string(), "-c".to_string(), "a.toml".to_string()];
    match config_file_from_args(&args) {
        ConfigFileArg::Path(p) => assert_eq!(p, "a.toml"),
        _ => panic!("expected a path"),
    }

    let args: Vec<String> = vec!["-c".to_string()];
    assert!(matches!(config_file_from_args(&args), ConfigFileArg::PathMissing));

    let args: Vec<String> = vec!["--configx".to_string(), "a.toml".to_string()];
    assert!(matches!(config_file_from_args(&args), ConfigFileArg::Absent));
}
