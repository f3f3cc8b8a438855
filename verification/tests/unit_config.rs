use pingdown::cli::Cli;
use pingdown::config::{
    build_monitor_config, build_monitor_config_with_loader, check_cli, resolve_config_path,
    ConfigError, ConfigLoader, FileConfig, MonitorConfigBuilder, OutputInfo, DEFAULT_CONFIG_PATH,
    ENV_CONFIG_PATH,
};

fn bare_cli(targets: Vec<&str>) -> Cli {
    Cli {
        targets: targets.into_iter().map(|s| s.to_string()).collect(),
        strict: false,
        config: None,
        read_json: false,
        normal_interval: None,
        emergency_interval: None,
        emergency_retries: None,
        verbose: 0,
        quiet: false,
        status_only: false,
        progress: false,
    }
}

fn empty_file() -> FileConfig {
    FileConfig::default()
}

/// Hands out one made-up file for one path and fails for every other path.
struct OneFile {
    path: String,
    targets: Vec<String>,
    strict: Option<bool>,
    normal_secs: Option<u64>,
    emergency_secs: Option<u64>,
    emergency_retries: Option<u32>,
    status_only: Option<bool>,
    progress: Option<bool>,
    verbose: Option<u8>,
}

impl ConfigLoader for OneFile {
    fn load(&self, path: &str) -> Result<FileConfig, ConfigError> {
        if path != self.path {
            return Err(ConfigError::io(path, "No such file or directory".to_string()));
        }
        Ok(FileConfig {
            targets: Some(self.targets.clone()),
            strict: self.strict,
            normal_secs: self.normal_secs,
            emergency_secs: self.emergency_secs,
            emergency_retries: self.emergency_retries,
            quiet: None,
            status_only: self.status_only,
            progress: self.progress,
            verbose: self.verbose,
        })
    }
}

#[test]
fn cli_only_arguments_build_monitor_config() {
    let mut cli = bare_cli(vec!["1.1.1.1"]);
    cli.strict = true;
    cli.normal_interval = Some(30);
    cli.emergency_interval = Some(10);
    cli.emergency_retries = Some(5);
    cli.status_only = true;
    cli.quiet = true;
    cli.progress = true;
    cli.verbose = 2;

    let cfg = build_monitor_config(&cli, None).expect("cli configuration should succeed");
    assert_eq!(cfg.targets, vec!["1.1.1.1".to_string()]);
    assert!(cfg.strict);
    assert_eq!(cfg.normal_interval_secs(), 30);
    assert_eq!(cfg.emergency_interval_secs(), 10);
    assert_eq!(cfg.emergency_retry_attempts(), 5);
    assert!(cfg.status_only);
    assert!(cfg.quiet);
    assert!(cfg.progress);
    assert_eq!(cfg.verbose, 2);
}

#[test]
fn cli_values_override_file_settings() {
    let path = "/tmp/pingdown-test/config.json";
    let loader = OneFile {
        path: path.to_string(),
        targets: vec!["file.example".to_string()],
        strict: Some(false),
        normal_secs: Some(60),
        emergency_secs: Some(8),
        emergency_retries: Some(2),
        status_only: Some(true),
        progress: Some(true),
        verbose: Some(1),
    };

    let mut cli = bare_cli(vec!["cli.example"]);
    cli.config = Some(path.to_string());
    cli.strict = true;
    cli.normal_interval = Some(15);
    cli.emergency_interval = Some(5);
    cli.verbose = 2;

    let cfg = build_monitor_config_with_loader(&cli, &None, &loader)
        .expect("combined configuration should succeed");
    assert_eq!(cfg.targets, vec!["cli.example".to_string()]); // CLI takes precedence for targets
    assert!(cfg.strict);
    assert_eq!(cfg.normal_interval_secs(), 15); // CLI overrides file
    assert_eq!(cfg.emergency_interval_secs(), 5); // CLI overrides file
    assert_eq!(cfg.emergency_retry_attempts(), 2); // File value retained
    assert!(cfg.status_only); // File value retained
    assert!(cfg.progress); // File value retained
    assert_eq!(cfg.verbose, 2); // CLI overrides file
}

#[test]
fn environment_variable_selects_configuration_file() {
    let path = "/tmp/pingdown-test/env.json";
    let loader = OneFile {
        path: path.to_string(),
        targets: vec!["env.example".to_string()],
        strict: Some(true),
        normal_secs: Some(42),
        emergency_secs: Some(7),
        emergency_retries: Some(4),
        status_only: None,
        progress: None,
        verbose: None,
    };

    let cli = bare_cli(vec![]);
    let env_value = Some(path.to_string());
    let cfg = build_monitor_config_with_loader(&cli, &env_value, &loader)
        .expect("env configuration should succeed");

    assert_eq!(cfg.targets, vec!["env.example".to_string()]);
    assert!(cfg.strict);
    assert_eq!(cfg.normal_interval_secs(), 42);
    assert_eq!(cfg.emergency_interval_secs(), 7);
    assert_eq!(cfg.emergency_retry_attempts(), 4);
}

#[test]
fn invalid_address_reports_precise_field_path() {
    let cli = bare_cli(vec!["!!!bad!!!"]);
    let err = build_monitor_config(&cli, None).expect_err("invalid address should fail");

    match err {
        ConfigError::Validation { field_path, message } => {
            assert_eq!(field_path, "cli.targets[0]");
            assert!(message.contains("!!!bad!!!"));
        }
        other => panic!("unexpected error: {}", other.to_string()),
    }
}

#[test]
fn zero_values_are_rejected_with_field_context() {
    // Zero normal interval
    let mut cli = bare_cli(vec!["1.1.1.1"]);
    cli.normal_interval = Some(0);
    let err = build_monitor_config(&cli, None).expect_err("zero normal interval should fail");
    match err {
        ConfigError::Validation { field_path, .. } => {
            assert_eq!(field_path, "cli --normal/-n");
        }
        other => panic!("unexpected error: {}", other.to_string()),
    }

    // Zero retries
    let mut cli = bare_cli(vec!["1.1.1.1"]);
    cli.emergency_retries = Some(0);
    let err = build_monitor_config(&cli, None).expect_err("zero retries should fail");
    match err {
        ConfigError::Validation { field_path, .. } => {
            assert_eq!(field_path, "cli --tries/-t");
        }
        other => panic!("unexpected error: {}", other.to_string()),
    }
}

#[test]
fn file_validation_errors_preserve_field_paths() {
    let path = "/tmp/pingdown-test/zero.json";
    let loader = OneFile {
        path: path.to_string(),
        targets: vec!["file.target".to_string()],
        strict: None,
        normal_secs: Some(10),
        emergency_secs: Some(5),
        emergency_retries: Some(0),
        status_only: None,
        progress: None,
        verbose: None,
    };

    let mut cli = bare_cli(vec![]);
    cli.config = Some(path.to_string());
    let err = build_monitor_config_with_loader(&cli, &None, &loader)
        .expect_err("zero retries in file should fail");

    match err {
        ConfigError::Validation { field_path, .. } => {
            assert_eq!(field_path, format!("{}:times-for-emergency-loop", path));
        }
        other => panic!("unexpected error: {}", other.to_string()),
    }
}

#[test]
fn defaults_fill_what_no_source_sets() {
    let cli = bare_cli(vec!["example.com"]);
    let cfg = build_monitor_config(&cli, None).unwrap();
    assert!(!cfg.strict);
    assert_eq!(cfg.normal_interval, 60);
    assert_eq!(cfg.emergency_interval, 20);
    assert_eq!(cfg.emergency_retries, 3);
    assert!(!cfg.quiet);
    assert!(!cfg.status_only);
    assert!(!cfg.progress);
    assert_eq!(cfg.verbose, 0);
}

#[test]
fn missing_targets_are_reported_for_both_sources() {
    let cli = bare_cli(vec![]);
    match build_monitor_config(&cli, None) {
        Err(ConfigError::Validation { field_path, message }) => {
            assert_eq!(field_path, "cli.targets|config.address");
            assert_eq!(
                message,
                "at least one target must be provided via CLI or configuration file"
            );
        }
        _ => panic!("a configuration without targets was accepted"),
    }
}

#[test]
fn empty_target_list_in_file_is_reported_with_the_file_key() {
    let cli = bare_cli(vec![]);
    let mut file = empty_file();
    file.targets = Some(vec![]);
    match build_monitor_config(&cli, Some(("conf.json".to_string(), file))) {
        Err(ConfigError::Validation { field_path, message }) => {
            assert_eq!(field_path, "conf.json:address");
            assert_eq!(message, "the targets list cannot be empty");
        }
        _ => panic!("an empty target list was accepted"),
    }
}

#[test]
fn second_invalid_target_is_reported_with_its_index_and_text() {
    let cli = bare_cli(vec!["10.0.0.1", "not a host", "also bad"]);
    match build_monitor_config(&cli, None) {
        Err(ConfigError::Validation { field_path, message }) => {
            assert_eq!(field_path, "cli.targets[1]");
            assert_eq!(message, "'not a host' is not a valid host, IP, or URL");
        }
        _ => panic!("an invalid target was accepted"),
    }
}

#[test]
fn zero_emergency_interval_is_rejected_with_its_source() {
    let mut cli = bare_cli(vec!["1.1.1.1"]);
    cli.emergency_interval = Some(0);
    match build_monitor_config(&cli, None) {
        Err(ConfigError::Validation { field_path, message }) => {
            assert_eq!(field_path, "cli --emergency/-e");
            assert_eq!(message, "emergency interval must be greater than zero seconds");
        }
        _ => panic!("a zero emergency interval was accepted"),
    }
    let mut file = empty_file();
    file.normal_secs = Some(0);
    let cli = bare_cli(vec!["1.1.1.1"]);
    match build_monitor_config(&cli, Some(("c.json".to_string(), file))) {
        Err(ConfigError::Validation { field_path, message }) => {
            assert_eq!(field_path, "c.json:secs-for-normal-loop");
            assert_eq!(message, "normal interval must be greater than zero seconds");
        }
        _ => panic!("a zero normal interval was accepted"),
    }
}

#[test]
fn checks_come_in_the_documented_order() {
    // An invalid target is reported before a zero interval.
    let mut cli = bare_cli(vec!["???"]);
    cli.normal_interval = Some(0);
    cli.emergency_retries = Some(0);
    match build_monitor_config(&cli, None) {
        Err(ConfigError::Validation { field_path, .. }) => assert_eq!(field_path, "cli.targets[0]"),
        _ => panic!("accepted"),
    }
    // A zero normal interval is reported before zero retries.
    let mut cli = bare_cli(vec!["1.1.1.1"]);
    cli.normal_interval = Some(0);
    cli.emergency_retries = Some(0);
    match build_monitor_config(&cli, None) {
        Err(ConfigError::Validation { field_path, .. }) => assert_eq!(field_path, "cli --normal/-n"),
        _ => panic!("accepted"),
    }
}

#[test]
fn file_flags_stay_where_the_command_line_is_silent() {
    let cli = bare_cli(vec![]);
    let mut file = empty_file();
    file.targets = Some(vec!["a.example".to_string(), "b.example".to_string()]);
    file.strict = Some(true);
    file.quiet = Some(true);
    file.verbose = Some(3);
    let cfg = build_monitor_config(&cli, Some(("f.json".to_string(), file))).unwrap();
    assert_eq!(cfg.targets, vec!["a.example".to_string(), "b.example".to_string()]);
    assert!(cfg.strict);
    assert!(cfg.quiet);
    assert_eq!(cfg.verbose, 3);
}

#[test]
fn builder_merges_in_call_order() {
    let mut builder = MonitorConfigBuilder::new();
    let mut file = empty_file();
    file.normal_secs = Some(11);
    file.emergency_secs = Some(12);
    builder.merge_file(file, "x.json");
    let mut cli = bare_cli(vec!["h.example"]);
    cli.normal_interval = Some(21);
    builder.merge_cli(&cli);
    assert_eq!(builder.normal_secs.as_ref().unwrap().value, 21);
    assert_eq!(builder.normal_secs.as_ref().unwrap().path, "cli --normal/-n");
    assert_eq!(builder.emergency_secs.as_ref().unwrap().value, 12);
    assert_eq!(builder.emergency_secs.as_ref().unwrap().path, "x.json:secs-for-emergency-loop");
    let cfg = builder.build().unwrap();
    assert_eq!(cfg.normal_interval, 21);
    assert_eq!(cfg.emergency_interval, 12);
}

#[test]
fn loader_errors_are_handed_on() {
    let loader = OneFile {
        path: "known.json".to_string(),
        targets: vec![],
        strict: None,
        normal_secs: None,
        emergency_secs: None,
        emergency_retries: None,
        status_only: None,
        progress: None,
        verbose: None,
    };
    let mut cli = bare_cli(vec!["1.1.1.1"]);
    cli.config = Some("unknown.json".to_string());
    match build_monitor_config_with_loader(&cli, &None, &loader) {
        Err(ConfigError::Io { path, message }) => {
            assert_eq!(path, "unknown.json");
            assert_eq!(message, "No such file or directory");
        }
        _ => panic!("the loader's error was lost"),
    }
}

#[test]
fn a_file_that_sets_nothing_changes_nothing() {
    let cli = bare_cli(vec!["1.1.1.1"]);
    let with_file = build_monitor_config(&cli, Some(("e.json".to_string(), empty_file()))).unwrap();
    let without = build_monitor_config(&cli, None).unwrap();
    assert_eq!(with_file, without);
    let builder = MonitorConfigBuilder::default();
    assert!(builder.targets.is_none() && builder.strict.is_none() && builder.verbose.is_none());
}

#[test]
fn config_path_precedence() {
    let mut cli = bare_cli(vec![]);
    let env = Some("  /etc/pingdown.json \n".to_string());
    assert_eq!(resolve_config_path(&cli, &None), None);
    assert_eq!(resolve_config_path(&cli, &env), Some("/etc/pingdown.json".to_string()));
    assert_eq!(resolve_config_path(&cli, &Some("   \t".to_string())), None);
    assert_eq!(resolve_config_path(&cli, &Some(String::new())), None);
    cli.read_json = true;
    assert_eq!(resolve_config_path(&cli, &env), Some(DEFAULT_CONFIG_PATH.to_string()));
    assert_eq!(DEFAULT_CONFIG_PATH, "./config.json");
    cli.config = Some("mine.json".to_string());
    assert_eq!(resolve_config_path(&cli, &env), Some("mine.json".to_string()));
    assert_eq!(ENV_CONFIG_PATH, "PINGDOWN_CONFIG");
}

#[test]
fn error_text_for_each_variant() {
    assert_eq!(
        ConfigError::io("a.json", "denied".to_string()).to_string(),
        "failed to read configuration at 'a.json': denied"
    );
    assert_eq!(
        ConfigError::parse("a.json", "expected value at line 1".to_string()).to_string(),
        "failed to parse configuration at 'a.json': expected value at line 1"
    );
    assert_eq!(
        ConfigError::validation("cli --tries/-t".to_string(), "too small".to_string()).to_string(),
        "invalid configuration for 'cli --tries/-t': too small"
    );
}

#[test]
fn check_cli_accepts_and_rejects() {
    assert!(check_cli(&bare_cli(vec!["8.8.8.8", "https://example.com/path?q=1#top"])).is_ok());
    match check_cli(&bare_cli(vec![])) {
        Err(ConfigError::Validation { field_path, .. }) => {
            assert_eq!(field_path, "cli.targets|config.address")
        }
        _ => panic!("an empty command line was accepted"),
    }
    match check_cli(&bare_cli(vec!["8.8.8.8", "bad host"])) {
        Err(ConfigError::Validation { field_path, message }) => {
            assert_eq!(field_path, "cli.targets[1]");
            assert_eq!(message, "'bad host' is not a valid host, IP, or URL");
        }
        _ => panic!("an invalid target was accepted"),
    }
}

#[test]
fn summary_lines_are_exact() {
    let mut cli = bare_cli(vec!["1.1.1.1", "example.com"]);
    cli.strict = true;
    cli.normal_interval = Some(30);
    cli.emergency_interval = Some(10);
    cli.emergency_retries = Some(5);
    cli.verbose = 2;
    cli.progress = true;
    let cfg = build_monitor_config(&cli, None).unwrap();
    let lines = cfg.output_info();
    assert_eq!(
        lines,
        vec![
            "[CONFIG] Effective configuration".to_string(),
            "  targets     : 1.1.1.1, example.com".to_string(),
            "  strict      : true".to_string(),
            "  normal      : 30s".to_string(),
            "  emergency   : 10s x5".to_string(),
            "  verbose     : 2".to_string(),
            "  quiet       : false".to_string(),
            "  status-only : false".to_string(),
            "  progress    : true".to_string(),
            "[INIT] Initializing monitoring process...".to_string(),
        ]
    );
}
