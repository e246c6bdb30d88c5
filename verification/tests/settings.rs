use cloud_cli::config::{flag_is_set, Config, EnvOverrides, PathProbe};
use cloud_cli::config_loader::process_detector::ProcessDetectionResult;
use cloud_cli::config_loader::{DorisConfig, Environment, MySQLConfig};
use cloud_cli::error::CliError;
use cloud_cli::executor::{
    execute_command, execute_command_with_timeout, show_code, CommandOutcome, TimedOutcome,
};
use cloud_cli::process::{found_message, select_process_interactively};
use cloud_cli::session::app_state::AppState;
use cloud_cli::session::background_tasks::{
    collect_cluster_info_background, collect_cluster_info_with_retry, may_try,
    should_update_cluster_info, spawn_cluster_info_collector, ClusterFileState, RetryStep,
};

fn no_overrides() -> EnvOverrides {
    EnvOverrides { jdk_path: None, output_dir: None, timeout: None, no_progress: None }
}

fn all_there() -> PathProbe {
    PathProbe { jdk_exists: true, jmap_exists: true, jstack_exists: true, output_dir_exists: true }
}

#[test]
fn settings_start_from_the_record_or_the_defaults() {
    let plain = Config::new(None, &no_overrides());
    assert_eq!(plain.jdk_path, "/opt/jdk");
    assert_eq!(plain.output_dir, "/opt/selectdb/information");
    assert_eq!(plain.timeout_seconds, 60);
    assert!(!plain.no_progress_animation);
    let mut record = DorisConfig::default();
    record.jdk_path = "/jdk17".to_string();
    record.timeout_seconds = 90;
    record.no_progress_animation = true;
    let from_record = Config::new(Some(record), &no_overrides());
    assert_eq!(from_record.jdk_path, "/jdk17");
    assert_eq!(from_record.output_dir, "/tmp/doris/collection");
    assert_eq!(from_record.timeout_seconds, 90);
    assert!(from_record.no_progress_animation);
}

#[test]
fn a_variable_that_is_not_set_overrides_nothing() {
    let mut record = DorisConfig::default();
    record.no_progress_animation = true;
    record.timeout_seconds = 90;
    let env = EnvOverrides {
        jdk_path: None,
        output_dir: Some("/data/out".to_string()),
        timeout: Some("120".to_string()),
        no_progress: None,
    };
    let c = Config::new(Some(record.clone()), &env);
    assert_eq!(c.output_dir, "/data/out");
    assert_eq!(c.timeout_seconds, 120);
    assert!(c.no_progress_animation);
    let off = EnvOverrides {
        jdk_path: None,
        output_dir: None,
        timeout: None,
        no_progress: Some("0".to_string()),
    };
    assert!(!Config::new(Some(record), &off).no_progress_animation);
}

#[test]
fn environment_overrides_the_settings() {
    let env = EnvOverrides {
        jdk_path: Some("/jdk21".to_string()),
        output_dir: Some("/data/out".to_string()),
        timeout: Some("120".to_string()),
        no_progress: Some("TRUE".to_string()),
    };
    let c = Config::new(None, &env);
    assert_eq!(c.jdk_path, "/jdk21");
    assert_eq!(c.output_dir, "/data/out");
    assert_eq!(c.timeout_seconds, 120);
    assert!(c.no_progress_animation);
    let mut c = Config::default();
    c.load_from_env(&EnvOverrides {
        jdk_path: None,
        output_dir: None,
        timeout: Some("soon".to_string()),
        no_progress: Some("yes".to_string()),
    });
    assert_eq!(c.timeout_seconds, 60);
    assert!(!c.no_progress_animation);
    c.load_from_env(&EnvOverrides {
        jdk_path: None,
        output_dir: None,
        timeout: None,
        no_progress: Some("1".to_string()),
    });
    assert!(c.no_progress_animation);
    assert!(flag_is_set("1", "1"));
    assert!(flag_is_set("True", "true"));
    assert!(!flag_is_set("True", "True"));
    assert!(!flag_is_set("0", "0"));
}

#[test]
fn settings_are_built_and_checked() {
    let c = Config::default()
        .with_jdk_path("/j".to_string())
        .with_output_dir("/o".to_string())
        .with_timeout(5)
        .with_progress_animation(false);
    assert_eq!((c.jdk_path.as_str(), c.output_dir.as_str(), c.timeout_seconds), ("/j", "/o", 5));
    assert!(c.no_progress_animation);
    assert!(!c.clone().with_progress_animation(true).no_progress_animation);
    assert_eq!(c.get_jmap_path(), "/j/bin/jmap");
    assert_eq!(c.get_jstack_path(), "/j/bin/jstack");
    assert_eq!(c.get_timeout_millis(), 5000);
    assert!(c.validate(all_there(), None).is_ok());
    let mut probe = all_there();
    probe.jstack_exists = false;
    assert_eq!(
        c.validate(probe, None).unwrap_err().message(),
        "Configuration error: jstack not found: /j/bin/jstack. Please verify JDK installation."
    );
    probe.jmap_exists = false;
    assert_eq!(
        c.validate_jdk_path(probe).unwrap_err().message(),
        "Configuration error: jmap not found: /j/bin/jmap. Please verify JDK installation."
    );
    probe.jdk_exists = false;
    assert_eq!(
        c.validate(probe, Some("denied")).unwrap_err().message(),
        "Configuration error: JDK path does not exist: /j. Set JDK_PATH environment variable or ensure default path exists."
    );
    assert_eq!(
        c.validate(all_there(), Some("denied")).unwrap_err().message(),
        "Configuration error: Output directory is not writable: /o. Error: denied"
    );
    let mut missing_dir = all_there();
    missing_dir.output_dir_exists = false;
    assert!(c.validate(missing_dir, Some("no such dir")).is_ok());
    assert_eq!(
        c.clone().with_timeout(0).validate(all_there(), None).unwrap_err().message(),
        "Configuration error: Timeout cannot be zero"
    );
    assert_eq!(
        c.clone().with_timeout(3601).validate_timeout().unwrap_err().message(),
        "Configuration error: Timeout cannot exceed 3600 seconds (1 hour)"
    );
    assert!(c.clone().with_timeout(3600).validate_timeout().is_ok());
    assert!(c.ensure_output_dir(Ok(())).is_ok());
    assert_eq!(
        c.ensure_output_dir(Err("full".to_string())).unwrap_err().message(),
        "Configuration error: Failed to create output directory: /o. Error: full"
    );
}

#[test]
fn every_kind_of_error_has_its_text() {
    assert_eq!(CliError::ProcessNotFound("a".to_string()).message(), "Process not found: a");
    assert_eq!(CliError::ProcessExecutionFailed("b".to_string()).message(), "Process execution failed: b");
    assert_eq!(CliError::ToolExecutionFailed("c".to_string()).message(), "Tool execution failed: c");
    assert_eq!(CliError::IoError("d".to_string()).message(), "IO error: d");
    assert_eq!(CliError::InvalidInput("e".to_string()).message(), "Invalid input: e");
    assert_eq!(CliError::ConfigError("f".to_string()).message(), "Configuration error: f");
    assert_eq!(CliError::MySQLAccessDenied("g".to_string()).message(), "MySQL access denied: g");
    assert_eq!(CliError::GracefulExit.message(), "Graceful exit");
    assert!(CliError::GracefulExit.is_graceful_exit());
    assert!(!CliError::IoError(String::new()).is_graceful_exit());
    assert_eq!(CliError::IoError("d".to_string()).duplicate().message(), "IO error: d");
}

#[test]
fn commands_are_judged() {
    let ok = CommandOutcome::Exited {
        success: true,
        code: Some(0),
        stdout: "out".to_string(),
        stderr: "warn".to_string(),
    };
    assert_eq!(execute_command(ok, "jstack").unwrap(), "out");
    let failed = |stdout: &str, stderr: &str, code: Option<i32>| CommandOutcome::Exited {
        success: false,
        code,
        stdout: stdout.to_string(),
        stderr: stderr.to_string(),
    };
    assert_eq!(
        execute_command(failed("out", "err", Some(1)), "jstack").unwrap_err().message(),
        "Tool execution failed: jstack failed: err"
    );
    assert_eq!(
        execute_command(failed("out", "", Some(1)), "jstack").unwrap_err().message(),
        "Tool execution failed: jstack failed: out"
    );
    assert_eq!(
        execute_command(failed("", "", Some(-9)), "jstack").unwrap_err().message(),
        "Tool execution failed: jstack failed: Command failed with exit code: -9"
    );
    assert_eq!(
        execute_command(failed("", "", None), "jstack").unwrap_err().message(),
        "Tool execution failed: jstack failed: Command failed with exit code: -1"
    );
    assert_eq!(
        execute_command(CommandOutcome::SpawnFailed("not found".to_string()), "jstack")
            .unwrap_err()
            .message(),
        "Tool execution failed: Failed to execute jstack: not found"
    );
    assert_eq!(show_code(Some(i32::MIN)), "-2147483648");
    let c = cloud_cli::config::Config::default();
    assert!(execute_command_with_timeout(TimedOutcome::Exited { success: true, code: Some(0) }, "t", &c).is_ok());
    assert_eq!(
        execute_command_with_timeout(TimedOutcome::Exited { success: false, code: Some(3) }, "t", &c)
            .unwrap_err()
            .message(),
        "Tool execution failed: t failed with exit code: 3"
    );
    assert_eq!(
        execute_command_with_timeout(TimedOutcome::TimedOut, "t", &c).unwrap_err().message(),
        "Tool execution failed: t timed out after 60 seconds"
    );
    assert_eq!(
        execute_command_with_timeout(TimedOutcome::SpawnFailed("e".to_string()), "t", &c)
            .unwrap_err()
            .message(),
        "Tool execution failed: Failed to start t: e"
    );
    assert_eq!(
        execute_command_with_timeout(TimedOutcome::WaitFailed("e".to_string()), "t", &c)
            .unwrap_err()
            .message(),
        "Tool execution failed: Error waiting for t process: e"
    );
}

#[test]
fn background_collection_is_bounded() {
    assert!(should_update_cluster_info(ClusterFileState::NoHome));
    assert!(should_update_cluster_info(ClusterFileState::Missing));
    assert!(should_update_cluster_info(ClusterFileState::Unreadable));
    assert!(should_update_cluster_info(ClusterFileState::Found { len: 99, age_secs: Some(1) }));
    assert!(should_update_cluster_info(ClusterFileState::Found { len: 100, age_secs: None }));
    assert!(should_update_cluster_info(ClusterFileState::Found { len: 100, age_secs: Some(301) }));
    assert!(!should_update_cluster_info(ClusterFileState::Found { len: 100, age_secs: Some(300) }));
    let transient = Err(CliError::ToolExecutionFailed("x".to_string()));
    assert_eq!(collect_cluster_info_with_retry(1, 0, &Ok(())), RetryStep::Stop);
    assert_eq!(collect_cluster_info_with_retry(1, 0, &transient), RetryStep::Wait(2));
    assert_eq!(collect_cluster_info_with_retry(2, 29, &transient), RetryStep::Wait(2));
    assert_eq!(collect_cluster_info_with_retry(3, 5, &transient), RetryStep::GiveUp(3));
    assert_eq!(collect_cluster_info_with_retry(1, 30, &transient), RetryStep::GiveUp(1));
    assert_eq!(
        collect_cluster_info_with_retry(1, 0, &Err(CliError::MySQLAccessDenied("x".to_string()))),
        RetryStep::Stop
    );
    assert_eq!(
        collect_cluster_info_with_retry(1, 0, &Err(CliError::ConfigError("x".to_string()))),
        RetryStep::Stop
    );
    assert!(may_try(0, 0));
    assert!(!may_try(3, 0));
    assert!(!may_try(0, 30));
    let mut record = DorisConfig::default();
    assert!(!collect_cluster_info_background(&record));
    assert!(!spawn_cluster_info_collector(true, &record));
    record.mysql = Some(MySQLConfig { user: "u".to_string(), password: "p".to_string() });
    assert!(collect_cluster_info_background(&record));
    assert!(spawn_cluster_info_collector(true, &record));
    assert!(!spawn_cluster_info_collector(false, &record));
}

#[test]
fn state_of_the_console() {
    let mut record = DorisConfig::default();
    record.timeout_seconds = 7;
    let mut state = AppState::new(record);
    assert_eq!(state.config.timeout_seconds, 7);
    assert_eq!(state.registry.fe_tools().len(), 3);
    let fresh = state.config.clone().with_timeout(9).with_jdk_path("/j".to_string());
    state.update_config(fresh);
    assert_eq!(state.config.timeout_seconds, 9);
    assert_eq!(state.doris_config.timeout_seconds, 9);
    assert_eq!(state.doris_config.jdk_path, "/j");
    state.reset_runtime_config(cloud_cli::config::Config::default());
    assert_eq!(state.config.timeout_seconds, 60);
    assert_eq!(state.doris_config.timeout_seconds, 9);

    let fe = ProcessDetectionResult {
        pid: 2,
        command: "java".to_string(),
        environment: Environment::FE,
        doris_home: "/fe".to_string(),
        java_home: "/j".to_string(),
    };
    assert_eq!(select_process_interactively(None, Some(fe)).unwrap(), 2);
    assert_eq!(
        select_process_interactively(None, None).unwrap_err().message(),
        "Process not found: No Doris process found"
    );
    assert_eq!(found_message(Environment::FE), "Found FE process");
    assert_eq!(found_message(Environment::BE), "Found BE process");
}
