use peekaboox::daemon::{
    check_api_version,
    apply_daemon_policy_profile, default_server_config, ensure_input_allowed,
    ensure_plugin_execution_allowed, env_flag_not_off, env_flag_on, parse_args, parse_run_args,
    run_option, server_config_for_profile, DaemonCommand, DaemonEnvironment, DaemonPolicyProfile,
    RunOption, SandboxProfile, ServerConfig,
};

fn quiet_environment() -> DaemonEnvironment {
    DaemonEnvironment {
        socket: "/run/user/1000/peekaboox/peekabooxd.sock".to_owned(),
        audit_log: "/home/user/.local/state/peekaboox/audit.jsonl".to_owned(),
        daemon_profile: None,
        daemon_sandbox: None,
        allow_input: None,
        allow_plugins: None,
        vision_fallback: None,
        grpc_token: None,
        emergency_hotkey: None,
    }
}

fn args(values: &[&str]) -> Vec<String> {
    values.iter().map(|value| (*value).to_owned()).collect()
}

fn test_config(allow_input: bool, allow_plugins: bool) -> ServerConfig {
    ServerConfig {
        socket: "/tmp/peekaboox-test.sock".to_owned(),
        once: true,
        audit_log: "/tmp/peekaboox-audit.jsonl".to_owned(),
        policy_profile: DaemonPolicyProfile::Observe,
        sandbox_profile: SandboxProfile::Off,
        allow_input,
        allow_plugins,
        vision_fallback: false,
        grpc_addr: Some("127.0.0.1:47777".to_owned()),
        grpc_token: None,
        accessibility_cache_ttl_ms: 500,
        accessibility_events: true,
        emergency_hotkey: true,
        plugin_paths: Vec::new(),
    }
}

#[test]
fn default_command_runs_daemon() {
    let command = parse_args(vec![], &quiet_environment(), &[]).unwrap();

    assert!(matches!(command, DaemonCommand::Run { config: ServerConfig { once: false, .. } }));
}

#[test]
fn parses_run_options() {
    let command = parse_args(
        args(&[
            "run",
            "--socket",
            "/tmp/peekaboox-test.sock",
            "--audit-log",
            "/tmp/peekaboox-audit.jsonl",
            "--sandbox",
            "basic",
            "--grpc-addr",
            "127.0.0.1:47778",
            "--accessibility-cache-ttl-ms",
            "250",
            "--no-accessibility-events",
            "--no-emergency-hotkey",
            "--allow-input",
            "--vision-fallback",
            "--once",
        ]),
        &quiet_environment(),
        &[],
    )
    .unwrap();

    assert_eq!(
        command,
        DaemonCommand::Run {
            config: ServerConfig {
                socket: "/tmp/peekaboox-test.sock".to_owned(),
                once: true,
                audit_log: "/tmp/peekaboox-audit.jsonl".to_owned(),
                policy_profile: DaemonPolicyProfile::Observe,
                sandbox_profile: SandboxProfile::Basic,
                allow_input: true,
                allow_plugins: false,
                vision_fallback: true,
                grpc_addr: Some("127.0.0.1:47778".to_owned()),
                grpc_token: None,
                accessibility_cache_ttl_ms: 250,
                accessibility_events: false,
                emergency_hotkey: false,
                plugin_paths: Vec::new()
            }
        }
    );
}

#[test]
fn parses_no_grpc_option() {
    let command = parse_args(args(&["run", "--no-grpc"]), &quiet_environment(), &[]).unwrap();

    assert!(matches!(command, DaemonCommand::Run { config: ServerConfig { grpc_addr: None, .. } }));
}

#[test]
fn parses_run_plugin_path_option() {
    let command =
        parse_args(args(&["run", "--plugin-path", "examples/plugins"]), &quiet_environment(), &[])
            .unwrap();

    assert!(matches!(
        command,
        DaemonCommand::Run { config: ServerConfig { plugin_paths, .. } }
            if plugin_paths == vec!["examples/plugins".to_owned()]
    ));
}

#[test]
fn parses_run_allow_plugins_option() {
    let command = parse_args(args(&["run", "--allow-plugins"]), &quiet_environment(), &[]).unwrap();

    assert!(matches!(
        command,
        DaemonCommand::Run {
            config: ServerConfig { allow_plugins: true, allow_input: false, .. }
        }
    ));
}

#[test]
fn parses_run_policy_profile() {
    let command =
        parse_args(args(&["run", "--profile", "operator"]), &quiet_environment(), &[]).unwrap();

    assert!(matches!(
        command,
        DaemonCommand::Run {
            config: ServerConfig {
                policy_profile: DaemonPolicyProfile::Operator,
                allow_input: true,
                allow_plugins: true,
                vision_fallback: true,
                ..
            }
        }
    ));
}

#[test]
fn parses_run_sandbox_profile() {
    let command = parse_args(args(&["run", "--sandbox", "strict"]), &quiet_environment(), &[]).unwrap();

    assert!(matches!(
        command,
        DaemonCommand::Run { config: ServerConfig { sandbox_profile: SandboxProfile::Strict, .. } }
    ));
}

#[test]
fn daemon_policy_profiles_apply_daemon_gates() {
    let environment = quiet_environment();
    let observe = server_config_for_profile(DaemonPolicyProfile::Observe, &environment);
    let assist = server_config_for_profile(DaemonPolicyProfile::Assist, &environment);
    let operator = server_config_for_profile(DaemonPolicyProfile::Operator, &environment);

    assert!(!observe.allow_input);
    assert!(!observe.allow_plugins);
    assert!(!observe.vision_fallback);
    assert!(!assist.allow_input);
    assert!(!assist.allow_plugins);
    assert!(assist.vision_fallback);
    assert!(operator.allow_input);
    assert!(operator.allow_plugins);
    assert!(operator.vision_fallback);
}

#[test]
fn env_permission_helper_defaults_to_false() {
    assert!(!env_flag_on(&None));
    assert!(env_flag_not_off(&None));
    let config = default_server_config(&quiet_environment()).unwrap();
    assert!(!config.allow_input);
    assert!(!config.allow_plugins);
    assert!(!config.vision_fallback);
    assert!(config.emergency_hotkey);
    assert_eq!(config.sandbox_profile, SandboxProfile::Off);
}

#[test]
fn input_permission_gate_denies_by_default() {
    let config = test_config(false, false);

    let error = ensure_input_allowed(&config).unwrap_err();

    assert!(error.contains("--allow-input"));
}

#[test]
fn plugin_permission_gate_is_separate_from_input() {
    let mut config = test_config(true, false);

    let error = ensure_plugin_execution_allowed(&config).unwrap_err();
    assert!(error.contains("--allow-plugins"));

    config.allow_plugins = true;
    ensure_plugin_execution_allowed(&config).unwrap();
}

#[test]
fn environment_flags_open_the_gates() {
    let mut environment = quiet_environment();
    environment.allow_input = Some("YES".to_owned());
    environment.vision_fallback = Some("1".to_owned());
    environment.allow_plugins = Some("on".to_owned());
    environment.emergency_hotkey = Some("FALSE".to_owned());
    environment.grpc_token = Some("  s3cret  ".to_owned());
    environment.daemon_sandbox = Some(" No_New_Privileges ".to_owned());

    let config = default_server_config(&environment).unwrap();
    assert!(config.allow_input);
    assert!(config.vision_fallback);
    assert!(!config.allow_plugins);
    assert!(!config.emergency_hotkey);
    assert_eq!(config.grpc_token.as_deref(), Some("s3cret"));
    assert_eq!(config.sandbox_profile, SandboxProfile::Basic);
}

#[test]
fn profile_names_are_normalised() {
    assert_eq!(DaemonPolicyProfile::parse(" READ_ONLY "), Ok(DaemonPolicyProfile::Observe));
    assert_eq!(DaemonPolicyProfile::parse("Inspect"), Ok(DaemonPolicyProfile::Assist));
    assert_eq!(DaemonPolicyProfile::parse("full"), Ok(DaemonPolicyProfile::Operator));
    assert_eq!(
        DaemonPolicyProfile::parse("Root_Mode"),
        Err("unknown daemon profile \"root-mode\"; expected one of: observe, assist, operator"
            .to_owned())
    );
    assert_eq!(SandboxProfile::parse("Namespaces"), Ok(SandboxProfile::Strict));
    assert_eq!(
        SandboxProfile::parse("chroot"),
        Err("unknown sandbox profile \"chroot\"; expected one of: off, basic, strict".to_owned())
    );
    for profile in [DaemonPolicyProfile::Observe, DaemonPolicyProfile::Assist, DaemonPolicyProfile::Operator] {
        assert_eq!(DaemonPolicyProfile::parse(profile.as_str()), Ok(profile));
    }
    for profile in [SandboxProfile::Off, SandboxProfile::Basic, SandboxProfile::Strict] {
        assert_eq!(SandboxProfile::parse(profile.as_str()), Ok(profile));
    }
}

#[test]
fn command_line_errors() {
    let environment = quiet_environment();
    assert_eq!(
        parse_args(args(&["serve"]), &environment, &[]),
        Err("unknown peekabooxd command: serve".to_owned())
    );
    assert_eq!(
        parse_args(args(&["run", "--socket"]), &environment, &[]),
        Err("missing value for --socket".to_owned())
    );
    assert_eq!(
        parse_args(args(&["run", "--grpc-token", "   "]), &environment, &[]),
        Err("--grpc-token must not be empty".to_owned())
    );
    assert_eq!(
        parse_args(args(&["run", "--accessibility-cache-ttl-ms", "soon"]), &environment, &[]),
        Err("invalid --accessibility-cache-ttl-ms \"soon\": invalid digit found in string".to_owned())
    );
    assert_eq!(
        parse_args(args(&["run", "--verbose"]), &environment, &[]),
        Err("unknown run argument: --verbose".to_owned())
    );
    assert_eq!(parse_args(args(&["-V"]), &environment, &[]), Ok(DaemonCommand::Version));
    assert_eq!(parse_args(args(&["--help"]), &environment, &[]), Ok(DaemonCommand::Help));
    assert_eq!(parse_args(args(&["run", "--once", "-h", "--bogus"]), &environment, &[]), Ok(DaemonCommand::Help));

    let mut bad_environment = quiet_environment();
    bad_environment.daemon_profile = Some("admin".to_owned());
    assert!(parse_args(args(&["--version"]), &bad_environment, &[]).is_ok());
    assert!(parse_args(args(&["run"]), &bad_environment, &[]).is_err());
}

#[test]
fn later_profile_resets_the_gates() {
    let command = parse_run_args(
        &args(&["--allow-input", "--profile", "observe", "--plugin-path", "a", "--plugin-path", "b"]),
        &quiet_environment(),
        &[],
    )
    .unwrap();
    let DaemonCommand::Run { config } = command else {
        panic!("expected a run command");
    };
    assert!(!config.allow_input);
    assert_eq!(config.plugin_paths, vec!["a".to_owned(), "b".to_owned()]);

    let mut config = test_config(false, false);
    apply_daemon_policy_profile(&mut config, DaemonPolicyProfile::Operator);
    assert!(config.allow_input && config.allow_plugins && config.vision_fallback);
    assert_eq!(run_option("--allow-plugin-exec"), Some(RunOption::AllowPlugins));
    assert_eq!(run_option("--allow"), None);
}

#[test]
fn requests_must_speak_the_daemon_api_version() {
    assert!(check_api_version("v1", "v1").is_ok());
    assert_eq!(
        check_api_version("v0", "v1").unwrap_err(),
        "unsupported API version \"v0\"; expected v1"
    );
}

/// What reading each argument as a socket address reports: an error for
/// `bogus`, nothing for anything else.
fn addr_errors(arguments: &[&str]) -> Vec<Option<String>> {
    arguments
        .iter()
        .map(|argument| {
            if *argument == "bogus" {
                Some("invalid socket address syntax".to_owned())
            } else {
                None
            }
        })
        .collect()
}

#[test]
fn invalid_grpc_address_fails_where_it_stands() {
    let environment = quiet_environment();
    let line = ["run", "--grpc-addr", "bogus", "--no-grpc"];
    assert_eq!(
        parse_args(args(&line), &environment, &addr_errors(&line)),
        Err("invalid --grpc-addr \"bogus\": invalid socket address syntax".to_owned())
    );
    let line = ["run", "--grpc-addr", "bogus", "--verbose"];
    assert_eq!(
        parse_args(args(&line), &environment, &addr_errors(&line)),
        Err("invalid --grpc-addr \"bogus\": invalid socket address syntax".to_owned())
    );
    let line = ["run", "--verbose", "--grpc-addr", "bogus"];
    assert_eq!(
        parse_args(args(&line), &environment, &addr_errors(&line)),
        Err("unknown run argument: --verbose".to_owned())
    );
    let line = ["--grpc-addr", "127.0.0.1:1"];
    let command = parse_run_args(&args(&line), &environment, &addr_errors(&line)).unwrap();
    let DaemonCommand::Run { config } = command else {
        panic!("expected a run command");
    };
    assert_eq!(config.grpc_addr.as_deref(), Some("127.0.0.1:1"));
}

#[test]
fn profile_names_are_read_loosely() {
    assert_eq!(DaemonPolicyProfile::parse(" Read_Only "), Ok(DaemonPolicyProfile::Observe));
    assert_eq!(DaemonPolicyProfile::parse("TRUSTED"), Ok(DaemonPolicyProfile::Operator));
    assert_eq!(DaemonPolicyProfile::parse("inspect"), Ok(DaemonPolicyProfile::Assist));
    assert!(DaemonPolicyProfile::parse("root").unwrap_err().contains("unknown daemon profile"));
}
