use agent_config::{
    AgentConfig, AgentConfigBuilder, ConfigError, GuestComponentsFeatures, GuestComponentsProcs,
    LogLevel,
};

#[test]
fn test_new() {
    let config: AgentConfig = Default::default();
    assert!(!config.debug_console);
    assert!(!config.dev_mode);
    assert_eq!(config.log_level, LogLevel::Info);
    assert_eq!(config.hotplug_timeout, 3);
    assert!(!config.enable_signature_verification);
    assert_eq!(config.image_policy_file, "");
}

#[test]
fn test_default_record() {
    let config: AgentConfig = Default::default();
    assert_eq!(config.cdh_api_timeout, 50);
    assert_eq!(config.debug_console_vport, 0);
    assert_eq!(config.log_vport, 0);
    assert_eq!(config.container_pipe_size, 0);
    assert_eq!(config.server_addr, "vsock://-1:1024");
    assert_eq!(config.passfd_listener_port, 0);
    assert!(!config.unified_cgroup_hierarchy);
    assert!(!config.tracing);
    assert!(!config.supports_seccomp);
    assert_eq!(config.https_proxy, "");
    assert_eq!(config.no_proxy, "");
    assert_eq!(config.guest_components_rest_api, GuestComponentsFeatures::Resource);
    assert_eq!(config.guest_components_procs, GuestComponentsProcs::ApiServerRest);
    assert_eq!(config.image_registry_auth, "");
    assert!(!config.secure_storage_integrity);
}

#[test]
fn test_config_builder_overlay() {
    let mut builder = AgentConfigBuilder::default();
    builder.dev_mode = Some(true);
    builder.server_addr = Some("vsock://8:2048".to_string());
    builder.guest_components_procs = Some(GuestComponentsProcs::ApiServerRest);
    builder.guest_components_rest_api = Some(GuestComponentsFeatures::All);

    let config = AgentConfig::from_builder(builder).unwrap();

    assert!(config.dev_mode);
    assert_eq!(config.server_addr, "vsock://8:2048");
    assert_eq!(config.guest_components_procs, GuestComponentsProcs::ApiServerRest);
    assert_eq!(config.guest_components_rest_api, GuestComponentsFeatures::All);
    assert_eq!(config.hotplug_timeout, 3);
}

#[test]
fn test_builder_dev_mode_round_trip() {
    // A file overlay holding only `dev_mode = true` yields the default record
    // with only that one flag flipped.
    let mut builder = AgentConfigBuilder::default();
    builder.dev_mode = Some(true);
    let config = AgentConfig::from_builder(builder).unwrap();
    let d: AgentConfig = Default::default();

    assert!(config.dev_mode);
    assert_eq!(config.debug_console, d.debug_console);
    assert_eq!(config.log_level, d.log_level);
    assert_eq!(config.hotplug_timeout, d.hotplug_timeout);
    assert_eq!(config.cdh_api_timeout, d.cdh_api_timeout);
    assert_eq!(config.debug_console_vport, d.debug_console_vport);
    assert_eq!(config.log_vport, d.log_vport);
    assert_eq!(config.container_pipe_size, d.container_pipe_size);
    assert_eq!(config.server_addr, d.server_addr);
    assert_eq!(config.passfd_listener_port, d.passfd_listener_port);
    assert_eq!(config.unified_cgroup_hierarchy, d.unified_cgroup_hierarchy);
    assert_eq!(config.tracing, d.tracing);
    assert_eq!(config.supports_seccomp, d.supports_seccomp);
    assert_eq!(config.https_proxy, d.https_proxy);
    assert_eq!(config.no_proxy, d.no_proxy);
    assert_eq!(config.guest_components_rest_api, d.guest_components_rest_api);
    assert_eq!(config.guest_components_procs, d.guest_components_procs);
    assert_eq!(config.image_registry_auth, d.image_registry_auth);
    assert_eq!(config.secure_storage_integrity, d.secure_storage_integrity);
    assert_eq!(config.enable_signature_verification, d.enable_signature_verification);
    assert_eq!(config.image_policy_file, d.image_policy_file);
}

#[test]
fn test_builder_log_level_translation() {
    let mut builder = AgentConfigBuilder::default();
    builder.log_level = Some("warning".to_string());
    let config = AgentConfig::from_builder(builder).unwrap();
    assert_eq!(config.log_level, LogLevel::Warning);

    let mut builder = AgentConfigBuilder::default();
    builder.log_level = Some("nonsense".to_string());
    match AgentConfig::from_builder(builder) {
        Err(e) => assert_eq!(e, ConfigError::InvalidLogLevel),
        Ok(_) => panic!("expected an invalid log level error"),
    }
}

#[test]
fn test_builder_overlay_without_guards() {
    // The file path applies present fields verbatim: no positivity guard.
    let mut builder = AgentConfigBuilder::default();
    builder.hotplug_timeout = Some(0);
    builder.container_pipe_size = Some(-5);
    let config = AgentConfig::from_builder(builder).unwrap();
    assert_eq!(config.hotplug_timeout, 0);
    assert_eq!(config.container_pipe_size, -5);
}

#[test]
fn test_file_overlay_then_env_overwrites() {
    // A file overlay sets dev_mode and a server address; the environment's
    // address wins over the file's.
    let mut builder = AgentConfigBuilder::default();
    builder.dev_mode = Some(true);
    builder.server_addr = Some("unix:///tmp/ignored.socket".to_string());
    let mut config = AgentConfig::from_builder(builder).unwrap();
    config.override_config_from_envs(
        Some("unix:///tmp/overwrite.socket".to_string()),
        None,
        None,
    );

    let expected_default: AgentConfig = Default::default();
    assert_eq!(expected_default.debug_console, config.debug_console);
    assert!(config.dev_mode);
    assert_eq!(expected_default.unified_cgroup_hierarchy, config.unified_cgroup_hierarchy);
    assert_eq!(expected_default.log_level, config.log_level);
    assert_eq!(expected_default.hotplug_timeout, config.hotplug_timeout);
    assert_eq!(expected_default.container_pipe_size, config.container_pipe_size);
    assert_eq!(config.server_addr, "unix:///tmp/overwrite.socket");
    assert_eq!(expected_default.tracing, config.tracing);
}

#[test]
fn test_env_overrides() {
    let mut config: AgentConfig = Default::default();
    config.override_config_from_envs(Some("foo".to_string()), None, None);
    assert_eq!(config.server_addr, "foo");

    let mut config: AgentConfig = Default::default();
    config.override_config_from_envs(Some("".to_string()), None, None);
    assert_eq!(config.server_addr, "");

    let mut config: AgentConfig = Default::default();
    config.override_config_from_envs(Some("=foo".to_string()), None, None);
    assert_eq!(config.server_addr, "=foo");

    let mut config: AgentConfig = Default::default();
    config.override_config_from_envs(None, Some("trace".to_string()), None);
    assert_eq!(config.log_level, LogLevel::Trace);

    // An unrecognized or empty level name is swallowed: the level stays.
    let mut config: AgentConfig = Default::default();
    config.override_config_from_envs(None, Some("".to_string()), None);
    assert_eq!(config.log_level, LogLevel::Info);

    let mut config: AgentConfig = Default::default();
    config.override_config_from_envs(None, Some("debugger".to_string()), None);
    assert_eq!(config.log_level, LogLevel::Info);
}

#[test]
fn test_env_tracing_lenient() {
    let cases: &[(&str, bool)] = &[
        ("", false),
        ("''", false),
        ("0", false),
        (".", false),
        (",", false),
        ("foo", false),
        ("1", true),
        ("true", true),
        ("false", false),
        ("a=b", false),
    ];
    for (value, expected) in cases.iter() {
        let mut config: AgentConfig = Default::default();
        config.override_config_from_envs(None, None, Some(value.to_string()));
        assert_eq!(config.tracing, *expected, "value {:?}", value);
    }
}
