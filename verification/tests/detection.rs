use cloud_cli::config_loader::process_detector::{
    detect_all_processes, detect_current_process, detect_environment, detect_mixed_deployment,
    detect_process_detailed, environ_command, execute_command, first_pattern, get_paths,
    get_paths_by_pid, get_pid_by_env, get_process_command, install_dir_of_command, locator_step,
    read_proc_environ_by_pid, select_pid, verify_config_file, LocatorPattern, LocatorStep,
    ProcessDetectionResult, ShellOutcome,
};
use cloud_cli::config_loader::config_parser::ConfigFile;
use cloud_cli::config_loader::{DorisConfig, Environment};
use cloud_cli::error::CliError;

fn not_found(r: Result<u32, CliError>) -> String {
    match r {
        Err(CliError::ProcessNotFound(m)) => m,
        other => panic!("expected a process that is not found, got {other:?}"),
    }
}

fn some(s: &str) -> Option<String> {
    Some(s.to_string())
}

const PS_LINE: &str = "doris     4242     1  5 10:00 ?  00:00:09 /usr/bin/java -Xmx8g org.apache.doris.DorisFE";

#[test]
fn first_pattern_with_output_decides() {
    let outputs = vec![some("31337 DorisFE"), some(PS_LINE), some(PS_LINE)];
    assert_eq!(get_pid_by_env(Environment::FE, &outputs, "doris").unwrap(), 31337);
}

#[test]
fn second_pattern_is_tried_after_an_empty_first() {
    let outputs = vec![some(""), some(PS_LINE), some("root 1 0 junk")];
    assert_eq!(get_pid_by_env(Environment::FE, &outputs, "doris").unwrap(), 4242);
    let outputs = vec![None, some(PS_LINE)];
    assert_eq!(get_pid_by_env(Environment::FE, &outputs, "doris").unwrap(), 4242);
    let outputs = vec![some("  \n "), some(PS_LINE)];
    assert_eq!(get_pid_by_env(Environment::FE, &outputs, "doris").unwrap(), 4242);
}

#[test]
fn third_pattern_is_tried_after_two_empty_ones() {
    let outputs = vec![some(""), some(""), some(PS_LINE)];
    assert_eq!(get_pid_by_env(Environment::FE, &outputs, "doris").unwrap(), 4242);
}

#[test]
fn not_found_only_after_all_three_are_empty() {
    let outputs = vec![some(""), some(""), some("")];
    assert_eq!(
        not_found(get_pid_by_env(Environment::FE, &outputs, "doris")),
        "No FE processes found"
    );
    assert_eq!(
        not_found(get_pid_by_env(Environment::FE, &Vec::new(), "doris")),
        "No FE processes found"
    );
    let outputs = vec![some(""), some("")];
    assert_eq!(
        not_found(get_pid_by_env(Environment::FE, &outputs, "doris")),
        "No FE processes found"
    );
}

#[test]
fn output_without_a_pid_ends_the_search() {
    let outputs = vec![some("garbage without numbers"), some(PS_LINE)];
    assert_eq!(
        not_found(get_pid_by_env(Environment::FE, &outputs, "doris")),
        "Invalid process info format"
    );
}

#[test]
fn storage_role_has_one_pattern() {
    let line = "root 777 1 0 10:00 ? 00:00:01 /opt/doris/be/lib/doris_be";
    assert_eq!(get_pid_by_env(Environment::BE, &vec![some(line)], "root").unwrap(), 777);
    assert_eq!(
        not_found(get_pid_by_env(Environment::BE, &vec![some("")], "root")),
        "No BE processes found"
    );
    assert_eq!(
        not_found(get_pid_by_env(Environment::BE, &vec![None, some(line)], "root")),
        "No BE processes found"
    );
    assert_eq!(
        not_found(get_pid_by_env(Environment::Mixed, &vec![some(line)], "root")),
        "Invalid environment"
    );
    assert_eq!(
        not_found(get_pid_by_env(Environment::Unknown, &vec![some(line)], "root")),
        "Invalid environment"
    );
}

#[test]
fn steps_follow_the_order_of_patterns() {
    assert_eq!(first_pattern(Environment::FE), Some(LocatorPattern::FeJavaLister));
    assert_eq!(first_pattern(Environment::BE), Some(LocatorPattern::BeListing));
    assert_eq!(first_pattern(Environment::Mixed), None);
    match locator_step(LocatorPattern::FeJavaLister, Some(""), "u") {
        LocatorStep::Run(p) => assert_eq!(p, LocatorPattern::FeClassName),
        other => panic!("{other:?}"),
    }
    match locator_step(LocatorPattern::FeClassName, None, "u") {
        LocatorStep::Run(p) => assert_eq!(p, LocatorPattern::FeHeuristic),
        other => panic!("{other:?}"),
    }
    match locator_step(LocatorPattern::FeHeuristic, Some(" "), "u") {
        LocatorStep::NotFound(e) => assert_eq!(e.message(), "Process not found: No FE processes found"),
        other => panic!("{other:?}"),
    }
    match locator_step(LocatorPattern::FeHeuristic, Some(PS_LINE), "u") {
        LocatorStep::Found(pid) => assert_eq!(pid, 4242),
        other => panic!("{other:?}"),
    }
    assert_eq!(LocatorPattern::BeListing.command(), "ps -ef | grep doris_be | grep -v grep");
    assert_eq!(LocatorPattern::FeJavaLister.next(), Some(LocatorPattern::FeClassName));
    assert_eq!(LocatorPattern::FeHeuristic.next(), None);
    assert_eq!(LocatorPattern::BeListing.next(), None);
}

#[test]
fn line_of_the_current_user_is_preferred() {
    let listing = "alice 100 1 0 ? doris_be\nbob 200 1 0 ? doris_be\nbob 300 1 0 ? doris_be";
    assert_eq!(select_pid(LocatorPattern::BeListing, listing, "bob"), Some(200));
    assert_eq!(select_pid(LocatorPattern::BeListing, listing, "alice"), Some(100));
    assert_eq!(select_pid(LocatorPattern::BeListing, listing, "carol"), Some(100));
    assert_eq!(select_pid(LocatorPattern::BeListing, listing, ""), Some(100));
    let with_junk = "bob junk\nalice 100 1\nbob 200 1";
    assert_eq!(select_pid(LocatorPattern::BeListing, with_junk, "bob"), Some(200));
    assert_eq!(select_pid(LocatorPattern::BeListing, "bob junk", "bob"), None);
    assert_eq!(select_pid(LocatorPattern::FeJavaLister, "41 DorisFE\n42 DorisFE", "42"), Some(41));
}

#[test]
fn environment_names_the_directories() {
    let environ = "DORIS_HOME=/opt/doris/be\nJAVA_HOME=/usr/lib/jvm/java-17";
    let (home, jdk) = get_paths_by_pid(Some(environ), "whatever", Environment::BE);
    assert_eq!(home, "/opt/doris/be");
    assert_eq!(jdk, "/usr/lib/jvm/java-17");
    let (home, jdk) = get_paths_by_pid(Some("DORIS_HOME=/opt/doris/be"), "", Environment::BE);
    assert_eq!(home, "/opt/doris/be");
    assert_eq!(jdk, "/opt/jdk");
}

#[test]
fn command_line_stands_in_for_the_environment() {
    let by_property = "/usr/bin/java -DDORIS_HOME=/srv/doris/fe -Dlog4j2.configurationFile=file:/other/conf/log4j2.xml DorisFE";
    assert_eq!(
        install_dir_of_command(by_property, Environment::FE),
        Some("/srv/doris/fe".to_string())
    );
    let by_logging = "/usr/bin/java -Dlog4j2.configurationFile=file:/srv/doris/fe/conf/log4j2-spring.xml DorisFE";
    assert_eq!(
        install_dir_of_command(by_logging, Environment::FE),
        Some("/srv/doris/fe".to_string())
    );
    let by_logging_plain = "java -Dlog4j.configurationFile=/srv/fe/conf/log4j.xml DorisFE";
    assert_eq!(
        install_dir_of_command(by_logging_plain, Environment::FE),
        Some("/srv/fe".to_string())
    );
    let by_binary = "/srv/selectdb/be/lib/doris_be --flag";
    assert_eq!(
        install_dir_of_command(by_binary, Environment::BE),
        Some("/srv/selectdb".to_string())
    );
    assert_eq!(install_dir_of_command(by_binary, Environment::FE), None);
    assert_eq!(install_dir_of_command("relative/lib/doris_be", Environment::BE), None);
    assert_eq!(install_dir_of_command("java DorisFE", Environment::FE), None);

    let (home, jdk) = get_paths_by_pid(None, by_logging, Environment::FE);
    assert_eq!(home, "/srv/doris/fe");
    assert_eq!(jdk, "/opt/jdk");
    let (home, jdk) = get_paths_by_pid(Some("JAVA_HOME=/jdk17"), by_logging, Environment::FE);
    assert_eq!(home, "/srv/doris/fe");
    assert_eq!(jdk, "/jdk17");
}

#[test]
fn assumed_directories_are_the_last_resort() {
    let (home, jdk) = get_paths_by_pid(None, "java DorisFE", Environment::FE);
    assert_eq!(home, "/opt/selectdb");
    assert_eq!(jdk, "/opt/jdk");
    let (home, jdk) = get_paths_by_pid(Some("JAVA_HOME=/jdk17"), "java DorisFE", Environment::FE);
    assert_eq!(home, "/opt/selectdb");
    assert_eq!(jdk, "/opt/jdk");
    let r = get_paths(Environment::FE, Ok(1), None, "java DorisFE");
    assert_eq!(
        r.unwrap_err().message(),
        "Configuration error: DORIS_HOME not found in FE process environment"
    );
    let r = get_paths(Environment::BE, Ok(1), Some("DORIS_HOME=/opt/selectdb"), "x");
    assert_eq!(
        r.unwrap_err().message(),
        "Configuration error: DORIS_HOME not found in BE process environment"
    );
    let r = get_paths(Environment::BE, Ok(1), Some("DORIS_HOME=/a"), "x").unwrap();
    assert_eq!(r, ("/a".to_string(), "/opt/jdk".to_string()));
}

#[test]
fn command_line_is_read_from_the_record_or_a_listing() {
    let listings = vec![some("  from ps  "), some("other")];
    assert_eq!(get_process_command(7, Some("java\0-Xmx1g\0DorisFE\0"), &listings), "java -Xmx1g DorisFE");
    assert_eq!(get_process_command(7, Some("\0\0"), &listings), "from ps");
    assert_eq!(get_process_command(7, None, &vec![None, some(" "), some("args")]), "args");
    assert_eq!(get_process_command(7, None, &vec![None, some("")]), "unknown_process_7");
    assert_eq!(get_process_command(4294967295, None, &Vec::new()), "unknown_process_4294967295");
}

#[test]
fn shell_commands_for_the_environment() {
    assert_eq!(
        environ_command(42, "DORIS_HOME|JAVA_HOME"),
        "cat /proc/42/environ | tr '\\0' '\\n' | grep -E 'DORIS_HOME|JAVA_HOME'"
    );
    let unavailable = read_proc_environ_by_pid(42, false, Ok("x".to_string()));
    assert_eq!(
        unavailable.unwrap_err().message(),
        "Configuration error: Cannot access process environment for PID 42 - /proc filesystem not available"
    );
    assert_eq!(read_proc_environ_by_pid(42, true, Ok("x".to_string())).unwrap(), "x");
}

#[test]
fn shell_output_is_trimmed_and_failures_are_typed() {
    assert_eq!(execute_command(&ShellOutcome::Output("  out \n".to_string())).unwrap(), "out");
    assert_eq!(execute_command(&ShellOutcome::Output(String::new())).unwrap(), "");
    assert_eq!(
        execute_command(&ShellOutcome::SpawnFailed("no sh".to_string())).unwrap_err().message(),
        "Configuration error: Failed to execute command: no sh"
    );
    assert_eq!(
        execute_command(&ShellOutcome::NotText("invalid utf-8".to_string()))
            .unwrap_err()
            .message(),
        "Configuration error: Failed to parse command output: invalid utf-8"
    );
}

#[test]
fn missing_config_file_is_named() {
    assert!(verify_config_file("/x/conf/be.conf", true).is_ok());
    assert_eq!(
        verify_config_file("/x/conf/be.conf", false).unwrap_err().message(),
        "Configuration error: Config file does not exist: /x/conf/be.conf"
    );
}

fn snapshot(env: Environment, pid: u32, home: &str) -> ProcessDetectionResult {
    ProcessDetectionResult {
        pid,
        command: format!("cmd-{pid}"),
        environment: env,
        doris_home: home.to_string(),
        java_home: "/jdk".to_string(),
    }
}

#[test]
fn snapshot_is_built_from_what_was_found() {
    let built = detect_process_detailed(
        Environment::BE,
        Ok(9),
        "/opt/x/be/lib/doris_be".to_string(),
        Some("DORIS_HOME=/opt/x/be"),
    )
    .unwrap();
    assert_eq!(built.pid, 9);
    assert_eq!(built.command, "/opt/x/be/lib/doris_be");
    assert_eq!(built.environment, Environment::BE);
    assert_eq!(built.doris_home, "/opt/x/be");
    assert_eq!(built.java_home, "/opt/jdk");
    for env in [Environment::Mixed, Environment::Unknown] {
        assert_eq!(
            detect_process_detailed(env, Ok(5), "x".to_string(), None).unwrap_err().message(),
            "Process not found: Invalid environment"
        );
    }
    let failed = detect_process_detailed(
        Environment::BE,
        Err(CliError::ProcessNotFound("No BE processes found".to_string())),
        String::new(),
        None,
    );
    assert_eq!(failed.unwrap_err().message(), "Process not found: No BE processes found");
}

#[test]
fn storage_role_comes_first() {
    let be = snapshot(Environment::BE, 1, "/be");
    let fe = snapshot(Environment::FE, 2, "/fe");
    let all = detect_all_processes(Some(be.clone()), Some(fe.clone())).unwrap();
    assert_eq!(all.len(), 2);
    assert_eq!(all[0].pid, 1);
    assert_eq!(all[1].pid, 2);
    assert_eq!(detect_current_process(Some(be.clone()), Some(fe.clone())).unwrap().pid, 1);
    assert_eq!(detect_current_process(None, Some(fe.clone())).unwrap().pid, 2);
    assert_eq!(detect_environment(None, Some(fe.clone())).unwrap(), Environment::FE);
    assert_eq!(detect_environment(Some(be), Some(fe)).unwrap(), Environment::BE);
    assert_eq!(detect_environment(None, None).unwrap(), Environment::Unknown);
    assert_eq!(
        detect_all_processes(None, None).unwrap_err().message(),
        "Process not found: No Doris processes found"
    );
    assert_eq!(
        detect_current_process(None, None).unwrap_err().message(),
        "Process not found: No Doris processes found"
    );
}

#[test]
fn both_roles_found_on_a_frontend_host_fill_the_backend_side_only() {
    let mut config = DorisConfig::default();
    config.environment = Environment::FE;
    config.http_port = Some(8030);
    config.query_port = Some(9030);
    config.meta_dir = Some("/data/meta".to_string());
    let be = Some(snapshot(Environment::BE, 10, "/opt/be"));
    let fe = Some(snapshot(Environment::FE, 20, "/opt/fe"));
    let be_file = ConfigFile::Content("be_port = 9060\nwebserver_port = 8040\n".to_string());
    let fe_file = ConfigFile::Content("http_port = 1\nquery_port = 2\nmeta_dir = /other\n".to_string());
    let mixed = detect_mixed_deployment(&mut config, &be, &fe, &be_file, &fe_file).unwrap();
    assert!(mixed);
    assert_eq!(config.http_port, Some(8030));
    assert_eq!(config.query_port, Some(9030));
    assert_eq!(config.rpc_port, None);
    assert_eq!(config.meta_dir, Some("/data/meta".to_string()));
    assert_eq!(config.be_port, Some(9060));
    assert_eq!(config.webserver_port, Some(8040));
    assert_eq!(config.brpc_port, None);
    assert_eq!(config.be_process_pid, Some(10));
    assert_eq!(config.be_process_command, Some("cmd-10".to_string()));
    assert_eq!(config.be_install_dir, Some("/opt/be".to_string()));
    assert_eq!(config.fe_process_pid, Some(20));
    assert_eq!(config.fe_install_dir, Some("/opt/fe".to_string()));
    assert_eq!(config.environment, Environment::FE);
}

#[test]
fn one_role_alone_changes_nothing() {
    let mut config = DorisConfig::default();
    config.environment = Environment::FE;
    config.be_port = Some(1);
    let be = Some(snapshot(Environment::BE, 10, "/opt/be"));
    let file = ConfigFile::Content("be_port = 9060\n".to_string());
    let mixed = detect_mixed_deployment(&mut config, &be, &None, &file, &ConfigFile::Missing).unwrap();
    assert!(!mixed);
    assert_eq!(config.be_port, Some(1));
    assert_eq!(config.be_process_pid, None);
    let none = detect_mixed_deployment(&mut config, &None, &None, &file, &file);
    assert_eq!(none.unwrap_err().message(), "Process not found: No Doris processes found");
}

#[test]
fn unparsable_file_leaves_the_ports_of_the_other_role() {
    let mut config = DorisConfig::default();
    config.environment = Environment::BE;
    config.http_port = Some(7);
    let be = Some(snapshot(Environment::BE, 10, "/opt/be"));
    let fe = Some(snapshot(Environment::FE, 20, "/opt/fe"));
    let be_file = ConfigFile::Content("be_port = 9060\n".to_string());
    detect_mixed_deployment(&mut config, &be, &fe, &be_file, &ConfigFile::Missing).unwrap();
    assert_eq!(config.http_port, Some(7));
    assert_eq!(config.be_port, None);
    assert_eq!(config.fe_process_pid, Some(20));
}
