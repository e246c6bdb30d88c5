use cloud_cli::config_loader::config_parser::{
    config_path, extract_value, parse_be_config, parse_config_content, parse_config_from_path,
    parse_config_internal, parse_fe_config, parse_key_value, ConfigFile,
};
use cloud_cli::config_loader::regex_utils::{
    capture, clean_value, extract_env_var, extract_key_value, extract_pid_from_output,
    extract_value_from_line,
};
use cloud_cli::config_loader::{DorisConfig, Environment};
use cloud_cli::error::CliError;

fn parse(env: Environment, content: &str) -> DorisConfig {
    let mut config = DorisConfig::default();
    parse_config_content(env, content, &mut config, Some("/opt/doris/be"));
    config
}

#[test]
fn line_with_spaces_sets_the_port() {
    let config = parse(Environment::BE, " webserver_port = 8040 ");
    assert_eq!(config.webserver_port, Some(8040));
    assert_eq!(config.be_port, None);
}

#[test]
fn line_without_spaces_sets_the_networks() {
    let config = parse(Environment::BE, "priority_networks=10.0.0.0/8");
    assert_eq!(config.priority_networks, Some("10.0.0.0/8".to_string()));
}

#[test]
fn comment_sets_nothing() {
    let config = parse(Environment::BE, "# be_port = 9999");
    assert_eq!(config.be_port, None);
    let config = parse(Environment::BE, "   # be_port = 9999");
    assert_eq!(config.be_port, None);
}

#[test]
fn two_of_five_ports_leave_three_absent() {
    let content = "# frontend\nhttp_port = 8030\n\nquery_port=9030\nunrelated = 1\n";
    let config = parse(Environment::FE, content);
    assert_eq!(config.http_port, Some(8030));
    assert_eq!(config.query_port, Some(9030));
    assert_eq!(config.rpc_port, None);
    assert_eq!(config.edit_log_port, None);
    assert_eq!(config.cloud_http_port, None);
    assert_eq!(config.be_port, None);
    assert_eq!(config.webserver_port, None);
}

#[test]
fn malformed_port_is_passed_over() {
    let content = "be_port = banana\nbrpc_port = 70000\nheartbeat_service_port = 9050\nwebserver_port = -1\n";
    let config = parse(Environment::BE, content);
    assert_eq!(config.be_port, None);
    assert_eq!(config.brpc_port, None);
    assert_eq!(config.heartbeat_service_port, Some(9050));
    assert_eq!(config.webserver_port, None);
}

#[test]
fn zero_is_no_port_and_absent_is_not_zero() {
    let config = parse(Environment::BE, "be_port = 0\n");
    assert_eq!(config.be_port, None);
    assert_eq!(config.brpc_port, None);
    let config = parse(Environment::BE, "be_port = 9060\nbe_port = 0\nbrpc_port = 00\n");
    assert_eq!(config.be_port, Some(9060));
    assert_eq!(config.brpc_port, None);
    let config = parse(Environment::FE, "http_port = 65535\nrpc_port = 65536\nquery_port = 1\n");
    assert_eq!(config.http_port, Some(65535));
    assert_eq!(config.rpc_port, None);
    assert_eq!(config.query_port, Some(1));
}

#[test]
fn later_line_wins() {
    let config = parse(Environment::BE, "be_port = 9060\nbe_port = 9061\nbe_port = x\n");
    assert_eq!(config.be_port, Some(9061));
}

#[test]
fn role_decides_which_ports_count() {
    let content = "be_port = 9060\nhttp_port = 8030\nmeta_dir = /data/meta\n";
    let be = parse(Environment::BE, content);
    assert_eq!(be.be_port, Some(9060));
    assert_eq!(be.http_port, None);
    assert_eq!(be.meta_dir, None);
    let fe = parse(Environment::FE, content);
    assert_eq!(fe.be_port, None);
    assert_eq!(fe.http_port, Some(8030));
    assert_eq!(fe.meta_dir, Some("/data/meta".to_string()));
    let unknown = parse(Environment::Unknown, content);
    assert_eq!(unknown.be_port, None);
    assert_eq!(unknown.http_port, None);
}

#[test]
fn quotes_around_a_value_are_removed() {
    let config = parse(
        Environment::FE,
        "priority_networks = \"192.168.0.0/16\"\nmeta_service_endpoint = \"ms:5000\"  \n",
    );
    assert_eq!(config.priority_networks, Some("192.168.0.0/16".to_string()));
    assert_eq!(config.meta_service_endpoint, Some("ms:5000".to_string()));
}

#[test]
fn log_dir_token_is_replaced_by_the_install_dir() {
    let mut config = DorisConfig::default();
    parse_config_content(
        Environment::BE,
        "LOG_DIR = ${DORIS_HOME}/log\n",
        &mut config,
        Some("/opt/doris/be"),
    );
    assert_eq!(config.log_dir, "/opt/doris/be/log");

    let mut config = DorisConfig::default();
    parse_config_content(Environment::BE, "LOG_DIR = ${DORIS_HOME}/log\n", &mut config, None);
    assert_eq!(config.log_dir, "${DORIS_HOME}/log");

    let mut config = DorisConfig::default();
    parse_config_content(
        Environment::FE,
        "LOG_DIR=\"/var/log/doris\"\n",
        &mut config,
        Some("/opt/doris/fe"),
    );
    assert_eq!(config.log_dir, "/var/log/doris");
}

#[test]
fn crlf_files_parse_too() {
    let config = parse(Environment::BE, "be_port = 9060\r\nbrpc_port = 8060\r\n");
    assert_eq!(config.be_port, Some(9060));
    assert_eq!(config.brpc_port, Some(8060));
}

#[test]
fn key_must_match_whole() {
    let config = parse(Environment::BE, "my_be_port = 1\nbe_port_extra = 2\nbe_port.x = 3\n");
    assert_eq!(config.be_port, None);
}

#[test]
fn parse_key_value_keeps_what_it_held() {
    let mut port = Some(1u16);
    parse_key_value("something = 5", "be_port", &mut port);
    assert_eq!(port, Some(1));
    parse_key_value("be_port = 5", "be_port", &mut port);
    assert_eq!(port, Some(5));
    parse_key_value("be_port = five", "be_port", &mut port);
    assert_eq!(port, Some(5));
}

#[test]
fn regex_wrappers_reach_the_engine() {
    assert_eq!(capture("a(b+)c", "xxabbbcxx", 1), Some("bbb".to_string()));
    assert_eq!(capture("a(b+)c", "xxabbbcxx", 0), Some("abbbc".to_string()));
    assert_eq!(capture("a(b+)c", "xxabbbcxx", 2), None);
    assert_eq!(capture("a(b+)c", "nothing", 1), None);
    assert_eq!(capture("a(b+c", "abbc", 1), None);
    assert_eq!(capture("(x)?y", "y", 1), None);
    assert_eq!(extract_value_from_line("  any_key =  \"v\"  "), Some("v".to_string()));
    assert_eq!(extract_value_from_line("no assignment"), None);
    assert_eq!(extract_value("k=v"), Some("v".to_string()));
    assert_eq!(extract_key_value("k = v", "k"), Some("v".to_string()));
    assert_eq!(extract_key_value("kk = v", "k"), None);
    assert_eq!(extract_key_value("k = ", "k"), Some("".to_string()));
    assert_eq!(clean_value("  \"a b\" "), "a b");
}

#[test]
fn key_is_matched_literally() {
    assert_eq!(extract_key_value("a.b = 1", "a.b"), Some("1".to_string()));
    assert_eq!(extract_key_value("axb = 1", "a.b"), None);
    assert_eq!(extract_env_var("A+B=yes\nAB=no", "A+B"), Some("yes".to_string()));
    assert_eq!(extract_env_var("AAB=no", "A+B"), None);
}

#[test]
fn environment_variables_are_found_at_line_starts() {
    let environ = "PATH=/bin\nJAVA_HOME=/usr/lib/jvm\nDORIS_HOME=/opt/doris/be\nMY_DORIS_HOME=/x";
    assert_eq!(extract_env_var(environ, "DORIS_HOME"), Some("/opt/doris/be".to_string()));
    assert_eq!(extract_env_var(environ, "JAVA_HOME"), Some("/usr/lib/jvm".to_string()));
    assert_eq!(extract_env_var(environ, "HOME"), None);
    assert_eq!(extract_env_var("DORIS_HOME=", "DORIS_HOME"), None);
}

#[test]
fn pid_is_read_from_a_listing() {
    let listing = "root      4242     1  0 10:00 ?  00:00:01 /opt/doris/be/lib/doris_be\nroot 17 1 x";
    assert_eq!(extract_pid_from_output(listing, r"^\S+\s+(\d+)", false), Some(4242));
    assert_eq!(extract_pid_from_output(listing, r"^\S+\s+(\d+)", true), Some(4242));
    let second = "header line\nroot 17 1 x";
    assert_eq!(extract_pid_from_output(second, r"^\S+\s+(\d+)", false), Some(17));
    assert_eq!(extract_pid_from_output(second, r"^\S+\s+(\d+)", true), None);
    assert_eq!(extract_pid_from_output("", r"^\S+\s+(\d+)", false), None);
    assert_eq!(extract_pid_from_output("root 99999999999 1", r"^\S+\s+(\d+)", false), None);
    assert_eq!(extract_pid_from_output("root 17", r"^\S+\s+(\d+", false), None);
}

#[test]
fn config_file_is_looked_for_under_conf() {
    assert_eq!(
        config_path(Environment::BE, "/opt/doris/be"),
        Some("/opt/doris/be/conf/be.conf".to_string())
    );
    assert_eq!(
        config_path(Environment::FE, "/opt/doris/fe/"),
        Some("/opt/doris/fe/conf/fe.conf".to_string())
    );
    assert_eq!(config_path(Environment::Mixed, "/opt"), None);
    assert_eq!(config_path(Environment::Unknown, "/opt"), None);
}

fn message(r: Result<DorisConfig, CliError>) -> String {
    match r {
        Ok(_) => "ok".to_string(),
        Err(e) => e.message(),
    }
}

#[test]
fn missing_and_unreadable_files_are_told_apart() {
    let missing = parse_config_from_path(Environment::BE, "/opt/doris/be", &ConfigFile::Missing);
    assert_eq!(
        message(missing),
        "Configuration error: Config file does not exist: /opt/doris/be/conf/be.conf"
    );
    let unreadable = parse_config_from_path(
        Environment::BE,
        "/opt/doris/be",
        &ConfigFile::Unreadable("Permission denied (os error 13)".to_string()),
    );
    assert_eq!(
        message(unreadable),
        "Configuration error: Failed to read BE config file: Permission denied (os error 13)"
    );
    let unreadable = parse_config_from_path(
        Environment::FE,
        "/opt/doris/fe",
        &ConfigFile::Unreadable("boom".to_string()),
    );
    assert_eq!(message(unreadable), "Configuration error: Failed to read FE config file: boom");
    let wrong = parse_config_from_path(
        Environment::Mixed,
        "/opt/doris",
        &ConfigFile::Content(String::new()),
    );
    assert_eq!(message(wrong), "Configuration error: Invalid environment");
}

#[test]
fn parsed_file_starts_from_the_install_dir() {
    let file = ConfigFile::Content("be_port = 9060\nLOG_DIR = ${DORIS_HOME}/logs\n".to_string());
    let config =
        parse_config_internal(Environment::BE, "/opt/doris/be", "/usr/lib/jvm", &file).unwrap();
    assert_eq!(config.environment, Environment::BE);
    assert_eq!(config.install_dir, "/opt/doris/be");
    assert_eq!(config.conf_dir, "/opt/doris/be/conf");
    assert_eq!(config.jdk_path, "/usr/lib/jvm");
    assert_eq!(config.log_dir, "/opt/doris/be/logs");
    assert_eq!(config.be_port, Some(9060));
    assert_eq!(config.process_pid, None);
    let empty = parse_config_from_path(
        Environment::FE,
        "/opt/doris/fe",
        &ConfigFile::Content(String::new()),
    )
    .unwrap();
    assert_eq!(empty.jdk_path, "/opt/jdk");
    assert_eq!(empty.http_port, None);
}

#[test]
fn running_role_must_tell_its_install_dir() {
    let file = ConfigFile::Content("be_port = 9060\n".to_string());
    let ok = parse_be_config(
        Ok(10),
        Some("DORIS_HOME=/opt/doris/be\nJAVA_HOME=/usr/lib/jvm"),
        "/opt/doris/be/lib/doris_be",
        &file,
    )
    .unwrap();
    assert_eq!(ok.install_dir, "/opt/doris/be");
    assert_eq!(ok.jdk_path, "/usr/lib/jvm");
    assert_eq!(ok.be_port, Some(9060));

    let unknown = parse_fe_config(Ok(10), None, "java DorisFE", &file);
    assert_eq!(
        message(unknown),
        "Configuration error: DORIS_HOME not found in FE process environment"
    );
    let not_running = parse_be_config(
        Err(CliError::ProcessNotFound("No BE processes found".to_string())),
        None,
        "",
        &file,
    );
    assert_eq!(message(not_running), "Process not found: No BE processes found");
}
