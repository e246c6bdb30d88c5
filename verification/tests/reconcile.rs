use cloud_cli::config_loader::config_parser::ConfigFile;
use cloud_cli::config_loader::process_detector::ProcessDetectionResult;
use cloud_cli::config_loader::{
    apply_environment_specific_ports, clean_process_info, fallback_load_config, get_current_pid,
    load_config, needs_config_update, parse_env_specific_config, same_config, to_app_config,
    update_config_from_process, update_mixed_environment, DorisConfig, Environment, LiveProbe,
    MySQLConfig, Timestamp,
};
use cloud_cli::config::Config;

fn at(secs: i64) -> Timestamp {
    Timestamp { secs, nanos: 0 }
}

fn be(pid: u32) -> ProcessDetectionResult {
    ProcessDetectionResult {
        pid,
        command: "/opt/doris/be/lib/doris_be".to_string(),
        environment: Environment::BE,
        doris_home: "/opt/doris/be".to_string(),
        java_home: "/usr/lib/jvm".to_string(),
    }
}

fn fe(pid: u32) -> ProcessDetectionResult {
    ProcessDetectionResult {
        pid,
        command: "java DorisFE".to_string(),
        environment: Environment::FE,
        doris_home: "/opt/doris/fe".to_string(),
        java_home: "/usr/lib/jvm".to_string(),
    }
}

fn be_file() -> ConfigFile {
    ConfigFile::Content(
        "be_port = 9060\nbrpc_port = 8060\nheartbeat_service_port = 9050\nwebserver_port = 8040\n"
            .to_string(),
    )
}

fn fe_file() -> ConfigFile {
    ConfigFile::Content("http_port = 8030\nquery_port = 9030\nmeta_dir = /data/meta\n".to_string())
}

fn probe(
    be: Option<ProcessDetectionResult>,
    fe: Option<ProcessDetectionResult>,
    pid_alive: bool,
) -> LiveProbe {
    LiveProbe { be, fe, be_file: be_file(), fe_file: fe_file(), pid_alive }
}

fn assert_same(a: &DorisConfig, b: &DorisConfig) {
    assert!(same_config(a, b), "{a:?}\n  is not\n{b:?}");
}

fn without_time(c: &DorisConfig) -> DorisConfig {
    let mut out = c.clone();
    out.last_detected = None;
    out
}

#[test]
fn stale_record_is_brought_up_to_date() {
    let outcome = load_config(DorisConfig::default(), &probe(Some(be(100)), None, false), at(1000));
    assert!(outcome.persist);
    let c = &outcome.config;
    assert_eq!(c.environment, Environment::BE);
    assert_eq!(c.process_pid, Some(100));
    assert_eq!(c.process_command, Some("/opt/doris/be/lib/doris_be".to_string()));
    assert_eq!(c.last_detected, Some(at(1000)));
    assert_eq!(c.install_dir, "/opt/doris/be");
    assert_eq!(c.conf_dir, "/opt/doris/be/conf");
    assert_eq!(c.log_dir, "/opt/doris/be/log");
    assert_eq!(c.jdk_path, "/usr/lib/jvm");
    assert_eq!(c.be_port, Some(9060));
    assert_eq!(c.webserver_port, Some(8040));
    assert_eq!(c.http_port, None);
    assert_eq!(c.fe_process_pid, None);
    assert_eq!(c.output_dir, "/tmp/doris/collection");
}

#[test]
fn second_run_changes_nothing_and_writes_nothing() {
    let first = load_config(DorisConfig::default(), &probe(Some(be(100)), None, false), at(1000));
    let second = load_config(first.config.clone(), &probe(Some(be(100)), None, true), at(2000));
    assert!(!second.persist);
    assert_same(&second.config, &first.config);
}

#[test]
fn second_run_on_a_mixed_host_only_moves_the_time() {
    let first =
        load_config(DorisConfig::default(), &probe(Some(be(100)), Some(fe(200)), false), at(1000));
    assert_eq!(first.config.environment, Environment::Mixed);
    assert_eq!(first.config.be_process_pid, Some(100));
    assert_eq!(first.config.fe_process_pid, Some(200));
    assert_eq!(first.config.http_port, Some(8030));
    assert_eq!(first.config.be_port, Some(9060));
    assert_eq!(first.config.install_dir, "/opt/doris/be");
    let second =
        load_config(first.config.clone(), &probe(Some(be(100)), Some(fe(200)), true), at(2000));
    assert_eq!(second.config.last_detected, Some(at(2000)));
    assert_same(&without_time(&second.config), &without_time(&first.config));
}

#[test]
fn changed_pid_makes_the_record_stale() {
    let first = load_config(DorisConfig::default(), &probe(Some(be(100)), None, false), at(1000));
    assert!(!needs_config_update(&first.config, &be(100), true));
    assert!(needs_config_update(&first.config, &be(101), true));
    assert!(needs_config_update(&first.config, &be(100), false));
    let mut moved = be(100);
    moved.doris_home = "/srv/be".to_string();
    assert!(needs_config_update(&first.config, &moved, true));
    let mut other_jdk = be(100);
    other_jdk.java_home = "/jdk21".to_string();
    assert!(needs_config_update(&first.config, &other_jdk, true));
    let mut other_role = be(100);
    other_role.environment = Environment::FE;
    assert!(needs_config_update(&first.config, &other_role, true));
}

#[test]
fn dead_process_is_forgotten_when_nothing_runs() {
    let mut persisted = DorisConfig::default();
    persisted.environment = Environment::FE;
    persisted.process_pid = Some(4242);
    persisted.process_command = Some("java DorisFE".to_string());
    persisted.last_detected = Some(at(5));
    persisted.fe_process_pid = Some(4242);
    persisted.fe_process_command = Some("java DorisFE".to_string());
    persisted.fe_install_dir = Some("/opt/doris/fe".to_string());
    persisted.be_process_pid = Some(1);
    persisted.be_process_command = Some("be".to_string());
    persisted.be_install_dir = Some("/opt/doris/be".to_string());
    persisted.install_dir = "/opt/doris/fe".to_string();
    persisted.http_port = Some(8030);
    persisted.mysql = Some(MySQLConfig { user: "root".to_string(), password: "x".to_string() });

    let outcome = load_config(persisted.clone(), &probe(None, None, false), at(1000));
    assert!(outcome.persist);
    let c = &outcome.config;
    assert_eq!(c.process_pid, None);
    assert_eq!(c.process_command, None);
    assert_eq!(c.last_detected, None);
    assert_eq!(c.fe_process_pid, None);
    assert_eq!(c.fe_process_command, None);
    assert_eq!(c.fe_install_dir, None);
    assert_eq!(c.be_process_pid, None);
    assert_eq!(c.be_process_command, None);
    assert_eq!(c.be_install_dir, None);
    assert_eq!(c.environment, Environment::FE);
    assert_eq!(c.install_dir, "/opt/doris/fe");
    assert_eq!(c.http_port, Some(8030));
    assert!(c.mysql.is_some());

    let again = load_config(outcome.config.clone(), &probe(None, None, false), at(2000));
    assert!(!again.persist);
    assert_same(&again.config, &outcome.config);
}

#[test]
fn live_process_is_kept_when_it_is_not_detected() {
    let mut persisted = DorisConfig::default();
    persisted.environment = Environment::BE;
    persisted.process_pid = Some(7);
    let outcome = load_config(persisted.clone(), &probe(None, None, true), at(1));
    assert!(!outcome.persist);
    assert_same(&outcome.config, &persisted);
}

#[test]
fn record_of_unknown_role_keeps_its_paths_and_ports_when_its_process_died() {
    let mut persisted = DorisConfig::default();
    assert_eq!(persisted.environment, Environment::Unknown);
    persisted.process_pid = Some(7);
    persisted.process_command = Some("doris_be".to_string());
    persisted.last_detected = Some(at(5));
    persisted.be_process_pid = Some(7);
    persisted.install_dir = "/somewhere".to_string();
    persisted.conf_dir = "/somewhere/conf".to_string();
    persisted.log_dir = "/somewhere/log".to_string();
    persisted.jdk_path = "/jdk17".to_string();
    persisted.output_dir = "/out".to_string();
    persisted.timeout_seconds = 90;
    persisted.webserver_port = Some(8040);
    persisted.http_port = Some(8030);
    persisted.mysql = Some(MySQLConfig { user: "root".to_string(), password: "x".to_string() });
    let outcome = load_config(persisted.clone(), &probe(None, None, false), at(1));
    assert!(outcome.persist);
    let mut expected = persisted.clone();
    expected.process_pid = None;
    expected.process_command = None;
    expected.last_detected = None;
    expected.be_process_pid = None;
    assert_same(&outcome.config, &expected);
    assert_eq!(outcome.config.environment, Environment::Unknown);
    assert_eq!(outcome.config.webserver_port, Some(8040));
    assert_eq!(outcome.config.install_dir, "/somewhere");

    let again = load_config(outcome.config.clone(), &probe(None, None, false), at(2));
    assert_same(&again.config, &outcome.config);

    let fresh = load_config(DorisConfig::default(), &probe(None, None, false), at(1));
    assert!(fresh.persist);
    assert_same(&fresh.config, &DorisConfig::default());
}

#[test]
fn settled_record_on_a_mixed_host_only_moves_the_time() {
    let live = probe(Some(be(100)), Some(fe(200)), true);
    let first = load_config(DorisConfig::default(), &probe(Some(be(100)), None, false), at(10));
    assert_eq!(first.config.environment, Environment::BE);
    let kept = load_config(first.config.clone(), &live, at(20));
    assert!(kept.persist);
    assert_eq!(kept.config.environment, Environment::Mixed);
    assert_eq!(kept.config.last_detected, Some(at(10)));
    let again = load_config(kept.config.clone(), &live, at(30));
    assert_eq!(again.config.last_detected, Some(at(30)));
    assert_same(&without_time(&again.config), &without_time(&kept.config));
    assert!(live.is_well_formed());
    let mut crossed = probe(Some(fe(200)), None, true);
    assert!(!crossed.is_well_formed());
    crossed.be = None;
    assert!(crossed.is_well_formed());
}

#[test]
fn fallback_builds_the_record_from_the_probe() {
    let outcome = fallback_load_config(&probe(None, Some(fe(200)), false));
    assert!(outcome.persist);
    assert_eq!(outcome.config.environment, Environment::FE);
    assert_eq!(outcome.config.install_dir, "/opt/doris/fe");
    assert_eq!(outcome.config.jdk_path, "/usr/lib/jvm");
    assert_eq!(outcome.config.http_port, Some(8030));
    assert_eq!(outcome.config.process_pid, None);

    let both = fallback_load_config(&probe(Some(be(100)), Some(fe(200)), false));
    assert_eq!(both.config.environment, Environment::Mixed);
    assert_eq!(both.config.be_port, Some(9060));
    assert_eq!(both.config.http_port, Some(8030));

    let mut assumed = fe(200);
    assumed.doris_home = "/opt/selectdb".to_string();
    let unknown_home = parse_env_specific_config(Environment::FE, &probe(None, Some(assumed), false));
    assert_same(&unknown_home, &DorisConfig::default());
    let nothing = parse_env_specific_config(Environment::Unknown, &probe(None, None, false));
    assert_same(&nothing, &DorisConfig::default());
}

#[test]
fn unparsable_config_keeps_the_ports_held() {
    let mut persisted = DorisConfig::default();
    persisted.be_port = Some(1);
    let updated =
        update_config_from_process(persisted, be(100), at(9), &ConfigFile::Missing).unwrap();
    assert_eq!(updated.be_port, Some(1));
    assert_eq!(updated.process_pid, Some(100));
    assert_eq!(updated.install_dir, "/opt/doris/be");
}

#[test]
fn ports_are_applied_by_role() {
    let mut parsed = DorisConfig::default();
    parsed.be_port = Some(1);
    parsed.http_port = Some(2);
    parsed.meta_dir = Some("/m".to_string());
    let mut c = DorisConfig::default();
    apply_environment_specific_ports(&mut c, &parsed, Environment::BE);
    assert_eq!((c.be_port, c.http_port), (Some(1), None));
    let mut c = DorisConfig::default();
    apply_environment_specific_ports(&mut c, &parsed, Environment::FE);
    assert_eq!((c.be_port, c.http_port), (None, Some(2)));
    assert_eq!(c.meta_dir, Some("/m".to_string()));
    let mut c = DorisConfig::default();
    apply_environment_specific_ports(&mut c, &parsed, Environment::Mixed);
    assert_eq!((c.be_port, c.http_port), (Some(1), Some(2)));
    let mut c = DorisConfig::default();
    apply_environment_specific_ports(&mut c, &parsed, Environment::Unknown);
    assert_eq!((c.be_port, c.http_port), (None, None));
}

#[test]
fn mixed_is_marked_only_when_both_run() {
    let mut c = DorisConfig::default();
    c.environment = Environment::BE;
    c.fe_process_pid = Some(1);
    c.be_process_pid = Some(2);
    assert!(update_mixed_environment(&mut c, &probe(Some(be(100)), None, true)).is_ok());
    assert_eq!(c.environment, Environment::BE);
    assert!(update_mixed_environment(&mut c, &probe(None, None, true)).is_err());
    assert!(update_mixed_environment(&mut c, &probe(Some(be(100)), Some(fe(200)), true)).is_ok());
    assert_eq!(c.environment, Environment::Mixed);
}

#[test]
fn accessors_answer_from_the_record() {
    let mut c = DorisConfig::default();
    assert_eq!(c.get_be_http_ports(), vec![8040, 8041]);
    c.webserver_port = Some(18040);
    assert_eq!(c.get_be_http_ports(), vec![18040]);
    assert_eq!(get_current_pid(&c, true), None);
    c.process_pid = Some(5);
    assert_eq!(get_current_pid(&c, true), Some(5));
    assert_eq!(get_current_pid(&c, false), None);
    assert!(c.is_process_valid(true));
    assert!(!c.is_process_valid(false));
    assert_eq!(c.get_valid_pid(true), Some(5));
    clean_process_info(&mut c);
    assert_eq!(c.process_pid, None);
    assert_eq!(c.webserver_port, Some(18040));

    let app = Config {
        jdk_path: "/j".to_string(),
        output_dir: "/o".to_string(),
        timeout_seconds: 5,
        no_progress_animation: true,
    };
    let with = c.with_app_config(&app);
    assert_eq!(with.jdk_path, "/j");
    assert_eq!(with.timeout_seconds, 5);
    let back = to_app_config(with);
    assert_eq!(back.output_dir, "/o");
    assert!(back.no_progress_animation);
    assert_eq!(Environment::Mixed.label(), "FE + BE");
    assert_eq!(Environment::from_label("FE + BE"), Environment::Mixed);
    assert_eq!(Environment::from_label("BE"), Environment::BE);
    assert_eq!(Environment::from_label("fe"), Environment::Unknown);
}
