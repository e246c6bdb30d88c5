use crate::config::{Config, ConfigView};
use crate::config_loader::config_parser::{
    parse_config_from_path, parse_config_internal, parsed_config, same_ports, ConfigFile,
    ConfigFileView,
};
use crate::config_loader::process_detector::{
    current_of, default_install_dir, default_jdk_dir, detect_environment,
    detect_mixed_deployment, mixed_applied, opt_snapshot, roles_fit, single_role, snapshots_fit,
    ProcessDetectionResult, ProcessSnapshot,
};
use crate::config_loader::config_persister::PersistResult;
use crate::error::CliError;
use crate::text::{
    clone_opt, concat, join_path, opt_text, path_join, same_opt_text, same_text,
};
use vstd::prelude::*;

pub mod config_parser;
pub mod config_persister;
pub mod process_detector;
pub mod regex_utils;

verus! {

/// Which node roles run on this host.
#[derive(Debug, Clone, Copy, PartialEq, Eq, Structural)]
pub enum Environment {
    /// The coordination role.
    FE,
    /// The storage role.
    BE,
    /// Both roles at once.
    Mixed,
    /// Neither role was found.
    Unknown,
}

impl Environment {
    /// The name under which the role is shown and stored.
    pub open spec fn label_text(self) -> Seq<char> {
        match self {
            Environment::FE => "FE"@,
            Environment::BE => "BE"@,
            Environment::Mixed => "FE + BE"@,
            Environment::Unknown => "Unknown"@,
        }
    }

    /// The role that a stored name stands for; any other name is no known role.
    pub open spec fn of_label(label: Seq<char>) -> Environment {
        if label == "FE"@ {
            Environment::FE
        } else if label == "BE"@ {
            Environment::BE
        } else if label == "FE + BE"@ {
            Environment::Mixed
        } else {
            Environment::Unknown
        }
    }

    /// The name under which the role is shown and stored.
    pub fn label(&self) -> (r: String)
        ensures
            r@ == self.label_text(),
    {
        match self {
            Environment::FE => "FE".to_owned(),
            Environment::BE => "BE".to_owned(),
            Environment::Mixed => "FE + BE".to_owned(),
            Environment::Unknown => "Unknown".to_owned(),
        }
    }

    /// The role that a stored name stands for.
    pub fn from_label(label: &str) -> (r: Environment)
        ensures
            r == Environment::of_label(label@),
    {
        if same_text(label, "FE") {
            Environment::FE
        } else if same_text(label, "BE") {
            Environment::BE
        } else if same_text(label, "FE + BE") {
            Environment::Mixed
        } else {
            Environment::Unknown
        }
    }
}

/// Reading back a role's stored name gives the role.
pub proof fn lemma_label_round_trip(env: Environment)
    ensures
        Environment::of_label(env.label_text()) == env,
{
    reveal_strlit("FE");
    reveal_strlit("BE");
    reveal_strlit("FE + BE");
    reveal_strlit("Unknown");
    assert("FE"@[0] != "BE"@[0]);
    assert("FE + BE"@.len() != "FE"@.len());
    assert("FE + BE"@.len() != "BE"@.len());
    assert("Unknown"@.len() != "FE"@.len());
    assert("Unknown"@.len() != "BE"@.len());
    assert("Unknown"@[0] != "FE + BE"@[0]);
}

/// An instant: seconds since the start of 1970 in UTC, and the nanoseconds into
/// that second.
#[derive(Debug, Clone, Copy, PartialEq, Eq, Structural)]
pub struct Timestamp {
    pub secs: i64,
    pub nanos: u32,
}

/// Stored database credentials; the password is kept encrypted.
#[derive(Debug)]
pub struct MySQLConfig {
    pub user: String,
    pub password: String,
}

/// What a `MySQLConfig` holds, as plain values.
pub struct MySQLRecord {
    pub user: Seq<char>,
    pub password: Seq<char>,
}

impl View for MySQLConfig {
    type V = MySQLRecord;

    open spec fn view(&self) -> MySQLRecord {
        MySQLRecord { user: self.user@, password: self.password@ }
    }
}

impl Clone for MySQLConfig {
    fn clone(&self) -> (r: MySQLConfig)
        ensures
            r@ == self@,
    {
        MySQLConfig { user: self.user.clone(), password: self.password.clone() }
    }
}

/// What optional credentials hold.
pub open spec fn opt_mysql(o: Option<MySQLConfig>) -> Option<MySQLRecord> {
    match o {
        Some(m) => Some(m@),
        None => None,
    }
}

/// A copy of optional credentials.
pub fn clone_mysql(o: &Option<MySQLConfig>) -> (r: Option<MySQLConfig>)
    ensures
        opt_mysql(r) == opt_mysql(*o),
{
    match o {
        Some(m) => Some(m.clone()),
        None => None,
    }
}

/// The reconciled record of what runs on this host and where: the one thing that
/// is kept between runs.
#[derive(Debug)]
pub struct DorisConfig {
    pub environment: Environment,
    pub install_dir: String,
    pub conf_dir: String,
    pub log_dir: String,
    pub jdk_path: String,
    pub output_dir: String,
    pub timeout_seconds: u64,
    pub no_progress_animation: bool,
    pub process_pid: Option<u32>,
    pub process_command: Option<String>,
    pub last_detected: Option<Timestamp>,
    pub be_port: Option<u16>,
    pub brpc_port: Option<u16>,
    pub heartbeat_service_port: Option<u16>,
    pub webserver_port: Option<u16>,
    pub be_process_pid: Option<u32>,
    pub be_process_command: Option<String>,
    pub be_install_dir: Option<String>,
    pub http_port: Option<u16>,
    pub rpc_port: Option<u16>,
    pub query_port: Option<u16>,
    pub edit_log_port: Option<u16>,
    pub cloud_http_port: Option<u16>,
    pub meta_dir: Option<String>,
    pub fe_process_pid: Option<u32>,
    pub fe_process_command: Option<String>,
    pub fe_install_dir: Option<String>,
    pub priority_networks: Option<String>,
    pub meta_service_endpoint: Option<String>,
    pub mysql: Option<MySQLConfig>,
}

/// What a `DorisConfig` holds, as plain values.
pub struct DorisRecord {
    pub environment: Environment,
    pub install_dir: Seq<char>,
    pub conf_dir: Seq<char>,
    pub log_dir: Seq<char>,
    pub jdk_path: Seq<char>,
    pub output_dir: Seq<char>,
    pub timeout_seconds: u64,
    pub no_progress_animation: bool,
    pub process_pid: Option<u32>,
    pub process_command: Option<Seq<char>>,
    pub last_detected: Option<Timestamp>,
    pub be_port: Option<u16>,
    pub brpc_port: Option<u16>,
    pub heartbeat_service_port: Option<u16>,
    pub webserver_port: Option<u16>,
    pub be_process_pid: Option<u32>,
    pub be_process_command: Option<Seq<char>>,
    pub be_install_dir: Option<Seq<char>>,
    pub http_port: Option<u16>,
    pub rpc_port: Option<u16>,
    pub query_port: Option<u16>,
    pub edit_log_port: Option<u16>,
    pub cloud_http_port: Option<u16>,
    pub meta_dir: Option<Seq<char>>,
    pub fe_process_pid: Option<u32>,
    pub fe_process_command: Option<Seq<char>>,
    pub fe_install_dir: Option<Seq<char>>,
    pub priority_networks: Option<Seq<char>>,
    pub meta_service_endpoint: Option<Seq<char>>,
    pub mysql: Option<MySQLRecord>,
}

impl View for DorisConfig {
    type V = DorisRecord;

    open spec fn view(&self) -> DorisRecord {
        DorisRecord {
            environment: self.environment,
            install_dir: self.install_dir@,
            conf_dir: self.conf_dir@,
            log_dir: self.log_dir@,
            jdk_path: self.jdk_path@,
            output_dir: self.output_dir@,
            timeout_seconds: self.timeout_seconds,
            no_progress_animation: self.no_progress_animation,
            process_pid: self.process_pid,
            process_command: opt_text(self.process_command),
            last_detected: self.last_detected,
            be_port: self.be_port,
            brpc_port: self.brpc_port,
            heartbeat_service_port: self.heartbeat_service_port,
            webserver_port: self.webserver_port,
            be_process_pid: self.be_process_pid,
            be_process_command: opt_text(self.be_process_command),
            be_install_dir: opt_text(self.be_install_dir),
            http_port: self.http_port,
            rpc_port: self.rpc_port,
            query_port: self.query_port,
            edit_log_port: self.edit_log_port,
            cloud_http_port: self.cloud_http_port,
            meta_dir: opt_text(self.meta_dir),
            fe_process_pid: self.fe_process_pid,
            fe_process_command: opt_text(self.fe_process_command),
            fe_install_dir: opt_text(self.fe_install_dir),
            priority_networks: opt_text(self.priority_networks),
            meta_service_endpoint: opt_text(self.meta_service_endpoint),
            mysql: opt_mysql(self.mysql),
        }
    }
}

impl Clone for DorisConfig {
    fn clone(&self) -> (r: DorisConfig)
        ensures
            r@ == self@,
    {
        DorisConfig {
            environment: self.environment,
            install_dir: self.install_dir.clone(),
            conf_dir: self.conf_dir.clone(),
            log_dir: self.log_dir.clone(),
            jdk_path: self.jdk_path.clone(),
            output_dir: self.output_dir.clone(),
            timeout_seconds: self.timeout_seconds,
            no_progress_animation: self.no_progress_animation,
            process_pid: self.process_pid,
            process_command: clone_opt(&self.process_command),
            last_detected: self.last_detected,
            be_port: self.be_port,
            brpc_port: self.brpc_port,
            heartbeat_service_port: self.heartbeat_service_port,
            webserver_port: self.webserver_port,
            be_process_pid: self.be_process_pid,
            be_process_command: clone_opt(&self.be_process_command),
            be_install_dir: clone_opt(&self.be_install_dir),
            http_port: self.http_port,
            rpc_port: self.rpc_port,
            query_port: self.query_port,
            edit_log_port: self.edit_log_port,
            cloud_http_port: self.cloud_http_port,
            meta_dir: clone_opt(&self.meta_dir),
            fe_process_pid: self.fe_process_pid,
            fe_process_command: clone_opt(&self.fe_process_command),
            fe_install_dir: clone_opt(&self.fe_install_dir),
            priority_networks: clone_opt(&self.priority_networks),
            meta_service_endpoint: clone_opt(&self.meta_service_endpoint),
            mysql: clone_mysql(&self.mysql),
        }
    }
}

/// The record of a host of which nothing is known yet.
pub open spec fn default_record() -> DorisRecord {
    DorisRecord {
        environment: Environment::Unknown,
        install_dir: "/opt/selectdb"@,
        conf_dir: "/opt/selectdb/conf"@,
        log_dir: "/opt/selectdb/log"@,
        jdk_path: "/opt/jdk"@,
        output_dir: "/tmp/doris/collection"@,
        timeout_seconds: 60,
        no_progress_animation: false,
        process_pid: None,
        process_command: None,
        last_detected: None,
        be_port: None,
        brpc_port: None,
        heartbeat_service_port: None,
        webserver_port: None,
        be_process_pid: None,
        be_process_command: None,
        be_install_dir: None,
        http_port: None,
        rpc_port: None,
        query_port: None,
        edit_log_port: None,
        cloud_http_port: None,
        meta_dir: None,
        fe_process_pid: None,
        fe_process_command: None,
        fe_install_dir: None,
        priority_networks: None,
        meta_service_endpoint: None,
        mysql: None,
    }
}

impl Default for DorisConfig {
    fn default() -> (r: DorisConfig)
        ensures
            r@ == default_record(),
    {
        DorisConfig {
            environment: Environment::Unknown,
            install_dir: "/opt/selectdb".to_owned(),
            conf_dir: "/opt/selectdb/conf".to_owned(),
            log_dir: "/opt/selectdb/log".to_owned(),
            jdk_path: "/opt/jdk".to_owned(),
            output_dir: "/tmp/doris/collection".to_owned(),
            timeout_seconds: 60,
            no_progress_animation: false,
            process_pid: None,
            process_command: None,
            last_detected: None,
            be_port: None,
            brpc_port: None,
            heartbeat_service_port: None,
            webserver_port: None,
            be_process_pid: None,
            be_process_command: None,
            be_install_dir: None,
            http_port: None,
            rpc_port: None,
            query_port: None,
            edit_log_port: None,
            cloud_http_port: None,
            meta_dir: None,
            fe_process_pid: None,
            fe_process_command: None,
            fe_install_dir: None,
            priority_networks: None,
            meta_service_endpoint: None,
            mysql: None,
        }
    }
}

/// The record with the storage ports of `parsed`.
pub open spec fn with_be_ports(rec: DorisRecord, parsed: DorisRecord) -> DorisRecord {
    DorisRecord {
        be_port: parsed.be_port,
        brpc_port: parsed.brpc_port,
        webserver_port: parsed.webserver_port,
        heartbeat_service_port: parsed.heartbeat_service_port,
        ..rec
    }
}

/// The record with the coordination ports and the metadata directory of `parsed`.
pub open spec fn with_fe_ports(rec: DorisRecord, parsed: DorisRecord) -> DorisRecord {
    DorisRecord {
        http_port: parsed.http_port,
        rpc_port: parsed.rpc_port,
        query_port: parsed.query_port,
        edit_log_port: parsed.edit_log_port,
        cloud_http_port: parsed.cloud_http_port,
        meta_dir: parsed.meta_dir,
        ..rec
    }
}

/// Takes the storage ports of `parsed_config` into the record.
pub fn apply_be_ports(config: &mut DorisConfig, parsed_config: &DorisConfig)
    ensures
        final(config)@ == with_be_ports(old(config)@, parsed_config@),
{
    config.be_port = parsed_config.be_port;
    config.brpc_port = parsed_config.brpc_port;
    config.webserver_port = parsed_config.webserver_port;
    config.heartbeat_service_port = parsed_config.heartbeat_service_port;
}

/// Takes the coordination ports and the metadata directory of `parsed_config`
/// into the record.
pub fn apply_fe_ports(config: &mut DorisConfig, parsed_config: &DorisConfig)
    ensures
        final(config)@ == with_fe_ports(old(config)@, parsed_config@),
{
    config.http_port = parsed_config.http_port;
    config.rpc_port = parsed_config.rpc_port;
    config.query_port = parsed_config.query_port;
    config.edit_log_port = parsed_config.edit_log_port;
    config.cloud_http_port = parsed_config.cloud_http_port;
    config.meta_dir = clone_opt(&parsed_config.meta_dir);
}

/// The ports on which the storage role's web server is asked: the configured
/// one, or the two usual ones where none is configured.
pub open spec fn be_http_ports_of(webserver_port: Option<u16>) -> Seq<u16> {
    match webserver_port {
        Some(p) => seq![p],
        None => seq![8040u16, 8041u16],
    }
}

/// The record with the console's own settings taken from `app`.
pub open spec fn with_settings(rec: DorisRecord, app: ConfigView) -> DorisRecord {
    DorisRecord {
        jdk_path: app.jdk_path,
        output_dir: app.output_dir,
        timeout_seconds: app.timeout_seconds,
        no_progress_animation: app.no_progress_animation,
        ..rec
    }
}

impl DorisConfig {
    /// The ports on which the storage role's web server is asked.
    pub fn get_be_http_ports(&self) -> (r: Vec<u16>)
        ensures
            r@ == be_http_ports_of(self.webserver_port),
    {
        let mut ports: Vec<u16> = Vec::new();
        match self.webserver_port {
            Some(port) => {
                ports.push(port);
            },
            None => {
                ports.push(8040);
                ports.push(8041);
            },
        }
        assert(ports@ =~= be_http_ports_of(self.webserver_port));
        ports
    }

    /// The record with the console's own settings taken from `config`.
    pub fn with_app_config(self, config: &Config) -> (r: DorisConfig)
        ensures
            r@ == with_settings(self@, config@),
    {
        let mut out = self;
        out.jdk_path = config.jdk_path.clone();
        out.output_dir = config.output_dir.clone();
        out.timeout_seconds = config.timeout_seconds;
        out.no_progress_animation = config.no_progress_animation;
        out
    }

    /// Whether the record names a process that still runs; `alive` is what the
    /// liveness probe said of the process that the record names.
    pub fn is_process_valid(&self, alive: bool) -> (b: bool)
        ensures
            b == (self.process_pid is Some && alive),
    {
        self.process_pid.is_some() && alive
    }

    /// Whether the record is that of a host that runs both roles.
    pub fn is_mixed_deployment(&self) -> (b: bool)
        ensures
            b == (self.environment == Environment::Mixed),
    {
        self.environment == Environment::Mixed
    }

    /// The process that the record names, where it still runs.
    pub fn get_valid_pid(&self, alive: bool) -> (r: Option<u32>)
        ensures
            r == if alive {
                self.process_pid
            } else {
                None
            },
    {
        if self.is_process_valid(alive) {
            self.process_pid
        } else {
            None
        }
    }
}

/// The console's settings that a record holds.
pub open spec fn app_settings(rec: DorisRecord) -> ConfigView {
    ConfigView {
        jdk_path: rec.jdk_path,
        output_dir: rec.output_dir,
        timeout_seconds: rec.timeout_seconds,
        no_progress_animation: rec.no_progress_animation,
    }
}

/// The console's settings that a record holds.
pub fn to_app_config(doris_config: DorisConfig) -> (r: Config)
    ensures
        r@ == app_settings(doris_config@),
{
    Config {
        jdk_path: doris_config.jdk_path,
        output_dir: doris_config.output_dir,
        timeout_seconds: doris_config.timeout_seconds,
        no_progress_animation: doris_config.no_progress_animation,
    }
}

/// The process that a record names, where it still runs.
pub fn get_current_pid(config: &DorisConfig, alive: bool) -> (r: Option<u32>)
    ensures
        r == if alive {
            config.process_pid
        } else {
            None
        },
{
    config.get_valid_pid(alive)
}

/// The record without anything that identifies a process. Paths, ports and
/// settings stay: they may still be right while the process is stopped.
pub open spec fn without_process(rec: DorisRecord) -> DorisRecord {
    DorisRecord {
        process_pid: None,
        process_command: None,
        last_detected: None,
        fe_process_pid: None,
        fe_process_command: None,
        fe_install_dir: None,
        be_process_pid: None,
        be_process_command: None,
        be_install_dir: None,
        ..rec
    }
}

/// Removes from the record everything that identifies a process.
pub fn clean_process_info(config: &mut DorisConfig)
    ensures
        final(config)@ == without_process(old(config)@),
{
    config.process_pid = None;
    config.process_command = None;
    config.last_detected = None;
    config.fe_process_pid = None;
    config.fe_process_command = None;
    config.fe_install_dir = None;
    config.be_process_pid = None;
    config.be_process_command = None;
    config.be_install_dir = None;
}

/// The record with the ports that belong to a role taken from `parsed`.
pub open spec fn with_role_ports(rec: DorisRecord, parsed: DorisRecord, env: Environment)
    -> DorisRecord {
    match env {
        Environment::BE => with_be_ports(rec, parsed),
        Environment::FE => with_fe_ports(rec, parsed),
        Environment::Mixed => with_fe_ports(with_be_ports(rec, parsed), parsed),
        Environment::Unknown => rec,
    }
}

/// Takes the ports that belong to a role from `parsed_config` into the record.
pub fn apply_environment_specific_ports(
    config: &mut DorisConfig,
    parsed_config: &DorisConfig,
    env: Environment,
)
    ensures
        final(config)@ == with_role_ports(old(config)@, parsed_config@, env),
{
    match env {
        Environment::BE => {
            apply_be_ports(config, parsed_config);
        },
        Environment::FE => {
            apply_fe_ports(config, parsed_config);
        },
        Environment::Mixed => {
            apply_be_ports(config, parsed_config);
            apply_fe_ports(config, parsed_config);
        },
        Environment::Unknown => {},
    }
}

/// What one detection pass saw of the host.
#[derive(Debug)]
pub struct LiveProbe {
    /// The running storage role.
    pub be: Option<ProcessDetectionResult>,
    /// The running coordination role.
    pub fe: Option<ProcessDetectionResult>,
    /// The storage role's configuration file, as found under its install directory.
    pub be_file: ConfigFile,
    /// The coordination role's configuration file.
    pub fe_file: ConfigFile,
    /// Whether the process that the persisted record names still runs.
    pub pid_alive: bool,
}

/// What a `LiveProbe` holds, as plain values.
pub struct LiveView {
    pub be: Option<ProcessSnapshot>,
    pub fe: Option<ProcessSnapshot>,
    pub be_file: ConfigFileView,
    pub fe_file: ConfigFileView,
    pub pid_alive: bool,
}

impl View for LiveProbe {
    type V = LiveView;

    open spec fn view(&self) -> LiveView {
        LiveView {
            be: opt_snapshot(self.be),
            fe: opt_snapshot(self.fe),
            be_file: self.be_file@,
            fe_file: self.fe_file@,
            pid_alive: self.pid_alive,
        }
    }
}

impl LiveProbe {
    /// Whether the two snapshots of the pass are those of their roles.
    pub open spec fn well_formed(&self) -> bool {
        roles_fit(self@.be, self@.fe)
    }

    /// Decides `well_formed`.
    pub fn is_well_formed(&self) -> (b: bool)
        ensures
            b == self.well_formed(),
    {
        snapshots_fit(&self.be, &self.fe)
    }
}

/// The configuration file of a single role in a detection pass.
pub open spec fn file_of(live: LiveView, env: Environment) -> ConfigFileView {
    match env {
        Environment::BE => live.be_file,
        Environment::FE => live.fe_file,
        _ => ConfigFileView::Missing,
    }
}

/// The record after the search for a mixed deployment: both roles are entered
/// where both run, and the host then counts as mixed.
pub open spec fn with_mixed(rec: DorisRecord, live: LiveView) -> DorisRecord {
    let entered = mixed_applied(rec, live.be, live.fe, live.be_file, live.fe_file);
    if live.be is Some && live.fe is Some {
        DorisRecord { environment: Environment::Mixed, ..entered }
    } else {
        entered
    }
}

/// Searches the detection pass for a mixed deployment and marks the host as mixed
/// where both roles run. It is a failure where none runs.
pub fn update_mixed_environment(config: &mut DorisConfig, probe: &LiveProbe) -> (r: Result<
    (),
    CliError,
>)
    requires
        probe.well_formed(),
    ensures
        final(config)@ == with_mixed(old(config)@, probe@),
        r is Ok <==> (probe.be is Some || probe.fe is Some),
{
    match detect_mixed_deployment(config, &probe.be, &probe.fe, &probe.be_file, &probe.fe_file) {
        Ok(mixed) => {
            if mixed {
                config.environment = Environment::Mixed;
            }
            Ok(())
        },
        Err(e) => Err(e),
    }
}

/// Whether the record is stale against the process that was just detected: it
/// names another process, role, install directory or JDK, or the process that it
/// names no longer runs.
pub open spec fn is_stale(rec: DorisRecord, process: ProcessSnapshot, alive: bool) -> bool {
    rec.process_pid != Some(process.pid) || rec.environment != process.role || rec.install_dir
        != process.install_dir || rec.jdk_path != process.jdk_dir || !(rec.process_pid is Some
        && alive)
}

/// Whether the record must be brought up to date with the detected process.
pub fn needs_config_update(config: &DorisConfig, process: &ProcessDetectionResult, alive: bool)
    -> (b: bool)
    requires
        single_role(process@),
    ensures
        b == is_stale(config@, process@, alive),
{
    let same_pid = match config.process_pid {
        Some(p) => p == process.pid,
        None => false,
    };
    !same_pid || config.environment != process.environment || !same_text(
        config.install_dir.as_str(),
        process.doris_home.as_str(),
    ) || !same_text(config.jdk_path.as_str(), process.java_home.as_str())
        || !config.is_process_valid(alive)
}

/// The record brought up to date with a detected process: the process, its role
/// and its directories are taken over, the configuration and log directories are
/// those under the install directory, and the role's ports are those of its
/// configuration file where that can be parsed.
pub open spec fn refreshed(
    rec: DorisRecord,
    process: ProcessSnapshot,
    now: Timestamp,
    file: ConfigFileView,
) -> DorisRecord {
    let taken = DorisRecord {
        process_pid: Some(process.pid),
        process_command: Some(process.command_line),
        last_detected: Some(now),
        environment: process.role,
        install_dir: process.install_dir,
        jdk_path: process.jdk_dir,
        conf_dir: path_join(process.install_dir, "conf"@),
        log_dir: path_join(process.install_dir, "log"@),
        ..rec
    };
    match parsed_config(process.role, process.install_dir, default_jdk_dir(), file) {
        Ok(parsed) => with_role_ports(taken, parsed, process.role),
        Err(_) => taken,
    }
}

/// Brings the record up to date with a detected process; `file` is the role's
/// configuration file as found under the process's install directory. This never
/// fails.
pub fn update_config_from_process(
    config: DorisConfig,
    process: ProcessDetectionResult,
    now: Timestamp,
    file: &ConfigFile,
) -> (r: Result<DorisConfig, CliError>)
    requires
        single_role(process@),
    ensures
        r is Ok,
        r->Ok_0@ == refreshed(config@, process@, now, file@),
        r->Ok_0@.environment == process@.role,
{
    let mut config = config;
    config.process_pid = Some(process.pid);
    config.process_command = Some(process.command.clone());
    config.last_detected = Some(now);
    config.environment = process.environment;
    config.install_dir = process.doris_home.clone();
    config.jdk_path = process.java_home.clone();
    config.conf_dir = join_path(process.doris_home.as_str(), "conf");
    config.log_dir = join_path(process.doris_home.as_str(), "log");
    match parse_config_from_path(process.environment, process.doris_home.as_str(), file) {
        Ok(parsed) => {
            apply_environment_specific_ports(&mut config, &parsed, process.environment);
        },
        Err(_) => {},
    }
    Ok(config)
}

/// The record of a role parsed from the role's running instance, and the default
/// record where that cannot be done: the role is not a single one, it does not
/// run, its install directory is only the assumed one, or its configuration file
/// cannot be parsed.
pub open spec fn role_record(env: Environment, live: LiveView) -> DorisRecord {
    let process = match env {
        Environment::BE | Environment::Mixed => live.be,
        Environment::FE => live.fe,
        Environment::Unknown => None,
    };
    let role = if env == Environment::FE {
        Environment::FE
    } else {
        Environment::BE
    };
    match process {
        Some(p) => if p.install_dir == default_install_dir() {
            default_record()
        } else {
            match parsed_config(role, p.install_dir, p.jdk_dir, file_of(live, role)) {
                Ok(parsed) => parsed,
                Err(_) => default_record(),
            }
        },
        None => default_record(),
    }
}

/// The record of a role parsed from the role's running instance, and the default
/// record where that cannot be done.
pub fn parse_env_specific_config(env: Environment, probe: &LiveProbe) -> (r: DorisConfig)
    requires
        probe.well_formed(),
    ensures
        r@ == role_record(env, probe@),
{
    let (process, role, file) = match env {
        Environment::BE | Environment::Mixed => (&probe.be, Environment::BE, &probe.be_file),
        Environment::FE => (&probe.fe, Environment::FE, &probe.fe_file),
        Environment::Unknown => {
            return DorisConfig::default();
        },
    };
    match process {
        Some(p) => {
            if same_text(p.doris_home.as_str(), "/opt/selectdb") {
                DorisConfig::default()
            } else {
                match parse_config_internal(role, p.doris_home.as_str(), p.java_home.as_str(), file) {
                    Ok(parsed) => parsed,
                    Err(_) => DorisConfig::default(),
                }
            }
        },
        None => DorisConfig::default(),
    }
}

/// The role of the host as a detection pass saw it.
pub open spec fn live_environment(live: LiveView) -> Environment {
    match current_of(live.be, live.fe) {
        Some(p) => p.role,
        None => Environment::Unknown,
    }
}

/// The record built from a detection pass alone, without anything persisted.
pub open spec fn fallback_record(live: LiveView) -> DorisRecord {
    let env = live_environment(live);
    let parsed = DorisRecord { environment: env, ..role_record(env, live) };
    if env != Environment::Unknown {
        with_mixed(parsed, live)
    } else {
        parsed
    }
}

/// A record and whether it is to be written to disk.
#[derive(Debug)]
pub struct LoadOutcome {
    pub config: DorisConfig,
    pub persist: bool,
}

/// Builds the record from a detection pass alone: the last resort where nothing
/// persisted tells the role of the host. The record is always to be written.
pub fn fallback_load_config(probe: &LiveProbe) -> (r: LoadOutcome)
    requires
        probe.well_formed(),
    ensures
        r.config@ == fallback_record(probe@),
        r.persist,
{
    let env = match &probe.be {
        Some(p) => p.environment,
        None => match &probe.fe {
            Some(p) => p.environment,
            None => Environment::Unknown,
        },
    };
    let mut config = parse_env_specific_config(env, probe);
    config.environment = env;
    if env != Environment::Unknown {
        let _ = update_mixed_environment(&mut config, probe);
    }
    LoadOutcome { config, persist: true }
}

/// What reconciling gives: the record, and whether it is to be written.
pub struct Reconciled {
    pub record: DorisRecord,
    pub persist: bool,
}

/// The persisted record reconciled with a detection pass.
///
/// Where a role runs, a stale record is brought up to date with the current
/// process, searched for a mixed deployment, and written; a record that is not
/// stale is only searched for a mixed deployment, and written where that changed
/// it. Where no role runs, a record that names a dead process loses everything
/// that identifies a process and is written, and its paths, ports and settings
/// stay; and a record that does not tell the role of the host takes the role
/// that the detection pass saw, which is its only part in such a record, and is
/// written.
pub open spec fn reconciled(rec: DorisRecord, live: LiveView, now: Timestamp) -> Reconciled {
    match current_of(live.be, live.fe) {
        Some(process) => {
            if is_stale(rec, process, live.pid_alive) {
                Reconciled {
                    record: with_mixed(
                        refreshed(rec, process, now, file_of(live, process.role)),
                        live,
                    ),
                    persist: true,
                }
            } else {
                Reconciled { record: with_mixed(rec, live), persist: with_mixed(rec, live) != rec }
            }
        },
        None => {
            let dead = rec.process_pid is Some && !live.pid_alive;
            let kept = if dead {
                without_process(rec)
            } else {
                rec
            };
            if rec.environment == Environment::Unknown {
                Reconciled {
                    record: DorisRecord { environment: live_environment(live), ..kept },
                    persist: true,
                }
            } else {
                Reconciled { record: kept, persist: dead }
            }
        },
    }
}

/// Whether two sets of optional credentials hold the same.
pub fn same_mysql(a: &Option<MySQLConfig>, b: &Option<MySQLConfig>) -> (r: bool)
    ensures
        r == (opt_mysql(*a) == opt_mysql(*b)),
{
    match (a, b) {
        (Some(x), Some(y)) => same_text(x.user.as_str(), y.user.as_str()) && same_text(
            x.password.as_str(),
            y.password.as_str(),
        ),
        (None, None) => true,
        _ => false,
    }
}

/// Whether two records hold the same ports.
pub fn same_port_fields(a: &DorisConfig, b: &DorisConfig) -> (r: bool)
    ensures
        r == (a.be_port == b.be_port && a.brpc_port == b.brpc_port && a.heartbeat_service_port
            == b.heartbeat_service_port && a.webserver_port == b.webserver_port && a.http_port
            == b.http_port && a.rpc_port == b.rpc_port && a.query_port == b.query_port
            && a.edit_log_port == b.edit_log_port && a.cloud_http_port == b.cloud_http_port),
{
    a.be_port == b.be_port && a.brpc_port == b.brpc_port && a.heartbeat_service_port
        == b.heartbeat_service_port && a.webserver_port == b.webserver_port && a.http_port
        == b.http_port && a.rpc_port == b.rpc_port && a.query_port == b.query_port
        && a.edit_log_port == b.edit_log_port && a.cloud_http_port == b.cloud_http_port
}

/// Whether two records hold the same.
pub fn same_config(a: &DorisConfig, b: &DorisConfig) -> (r: bool)
    ensures
        r == (a@ == b@),
{
    let paths = same_text(a.install_dir.as_str(), b.install_dir.as_str()) && same_text(
        a.conf_dir.as_str(),
        b.conf_dir.as_str(),
    ) && same_text(a.log_dir.as_str(), b.log_dir.as_str()) && same_text(
        a.jdk_path.as_str(),
        b.jdk_path.as_str(),
    ) && same_text(a.output_dir.as_str(), b.output_dir.as_str()) && same_opt_text(
        &a.meta_dir,
        &b.meta_dir,
    );
    let settings = a.environment == b.environment && a.timeout_seconds == b.timeout_seconds
        && a.no_progress_animation == b.no_progress_animation && same_opt_text(
        &a.priority_networks,
        &b.priority_networks,
    ) && same_opt_text(&a.meta_service_endpoint, &b.meta_service_endpoint) && same_mysql(
        &a.mysql,
        &b.mysql,
    );
    let process = a.process_pid == b.process_pid && same_opt_text(
        &a.process_command,
        &b.process_command,
    ) && a.last_detected == b.last_detected && a.be_process_pid == b.be_process_pid
        && same_opt_text(&a.be_process_command, &b.be_process_command) && same_opt_text(
        &a.be_install_dir,
        &b.be_install_dir,
    ) && a.fe_process_pid == b.fe_process_pid && same_opt_text(
        &a.fe_process_command,
        &b.fe_process_command,
    ) && same_opt_text(&a.fe_install_dir, &b.fe_install_dir);
    let ports = same_port_fields(a, b);
    paths && settings && process && ports
}

/// Reconciles the persisted record with a detection pass made at `now`.
pub fn load_config(persisted: DorisConfig, probe: &LiveProbe, now: Timestamp) -> (r: LoadOutcome)
    requires
        probe.well_formed(),
    ensures
        r.config@ == reconciled(persisted@, probe@, now).record,
        r.persist == reconciled(persisted@, probe@, now).persist,
{
    let current = match &probe.be {
        Some(p) => Some(p),
        None => match &probe.fe {
            Some(p) => Some(p),
            None => None,
        },
    };
    match current {
        Some(process) => {
            if needs_config_update(&persisted, process, probe.pid_alive) {
                let file = match process.environment {
                    Environment::BE => &probe.be_file,
                    Environment::FE => &probe.fe_file,
                    _ => &ConfigFile::Missing,
                };
                let mut config = match update_config_from_process(
                    persisted,
                    process.clone(),
                    now,
                    file,
                ) {
                    Ok(c) => c,
                    Err(_) => DorisConfig::default(),
                };
                let _ = update_mixed_environment(&mut config, probe);
                LoadOutcome { config, persist: true }
            } else {
                let mut config = persisted.clone();
                let _ = update_mixed_environment(&mut config, probe);
                let changed = !same_config(&config, &persisted);
                LoadOutcome { config, persist: changed }
            }
        },
        None => {
            let dead = persisted.process_pid.is_some() && !persisted.is_process_valid(
                probe.pid_alive,
            );
            let mut config = persisted;
            if dead {
                clean_process_info(&mut config);
            }
            if config.environment == Environment::Unknown {
                config.environment = match detect_environment(None, None) {
                    Ok(env) => env,
                    Err(_) => Environment::Unknown,
                };
                LoadOutcome { config, persist: true }
            } else {
                LoadOutcome { config, persist: dead }
            }
        },
    }
}

/// A record that names a dead process, on a host on which no role runs, loses
/// everything that identifies a process, and is written; what it knows of paths,
/// ports and settings stays, whatever it tells of the role of the host.
pub proof fn lemma_liveness_override(rec: DorisRecord, live: LiveView, now: Timestamp)
    requires
        rec.process_pid is Some,
        !live.pid_alive,
        live.be is None,
        live.fe is None,
    ensures
        ({
            let after = reconciled(rec, live, now);
            &&& after.persist
            &&& after.record == without_process(rec)
            &&& after.record.process_pid is None
            &&& after.record.process_command is None
            &&& after.record.last_detected is None
            &&& after.record.fe_process_pid is None
            &&& after.record.fe_process_command is None
            &&& after.record.fe_install_dir is None
            &&& after.record.be_process_pid is None
            &&& after.record.be_process_command is None
            &&& after.record.be_install_dir is None
            &&& after.record.install_dir == rec.install_dir
            &&& after.record.conf_dir == rec.conf_dir
            &&& after.record.log_dir == rec.log_dir
            &&& after.record.jdk_path == rec.jdk_path
            &&& after.record.output_dir == rec.output_dir
            &&& same_ports(after.record, rec)
        }),
{
}

/// The record with the time of detection left out.
pub open spec fn untimed(rec: DorisRecord) -> DorisRecord {
    DorisRecord { last_detected: None, ..rec }
}

/// The detection pass as it is seen at the next run against the same host: what
/// runs is as before, and the process that the record now names, being one that
/// runs, is found alive.
pub open spec fn seen_again(live: LiveView) -> LiveView {
    if live.be is Some || live.fe is Some {
        LiveView { pid_alive: true, ..live }
    } else {
        live
    }
}

/// Whether the record already holds what bringing it up to date with a process
/// would set: only the time of detection would move.
pub open spec fn settled(rec: DorisRecord, process: ProcessSnapshot, file: ConfigFileView) -> bool {
    forall|now: Timestamp| untimed(#[trigger] refreshed(rec, process, now, file)) == untimed(rec)
}

/// Reconciling twice against the same host gives, the second time, the record of
/// the first but for the time of detection; and on a host on which the two roles
/// do not both run, the second run writes nothing, unless the record does not
/// tell the role of the host. On a host on which both roles run, this is stated
/// of a record that the first run found stale, and of one that already held what
/// bringing it up to date sets.
pub proof fn lemma_reconcile_idempotent(
    rec: DorisRecord,
    live: LiveView,
    first: Timestamp,
    second: Timestamp,
)
    requires
        roles_fit(live.be, live.fe),
        live.be is Some && live.fe is Some ==> is_stale(rec, live.be->0, live.pid_alive) || settled(
            rec,
            live.be->0,
            live.be_file,
        ),
    ensures
        untimed(
            reconciled(reconciled(rec, live, first).record, seen_again(live), second).record,
        ) == untimed(reconciled(rec, live, first).record),
        !(live.be is Some && live.fe is Some) ==> !reconciled(
            reconciled(rec, live, first).record,
            seen_again(live),
            second,
        ).persist || (live.be is None && live.fe is None && rec.environment
            == Environment::Unknown),
{
    let once = reconciled(rec, live, first).record;
    let next = seen_again(live);
    match current_of(live.be, live.fe) {
        Some(process) => {
            let file = file_of(live, process.role);
            assert(file_of(next, process.role) == file);
            if is_stale(rec, process, live.pid_alive) {
                let fresh = refreshed(rec, process, first, file);
                assert(once == with_mixed(fresh, live));
                assert(with_mixed(fresh, next) == with_mixed(fresh, live));
                if is_stale(once, process, next.pid_alive) {
                    let again = refreshed(once, process, second, file);
                    assert(untimed(with_mixed(again, next)) == untimed(once));
                } else {
                    assert(with_mixed(once, next) == once);
                }
            } else {
                assert(once == with_mixed(rec, live));
                if live.be is Some && live.fe is Some {
                    assert(untimed(refreshed(rec, process, second, file)) == untimed(rec));
                    let again = refreshed(once, process, second, file);
                    assert(untimed(with_mixed(again, next)) == untimed(once));
                } else {
                    assert(once == rec);
                }
            }
        },
        None => {},
    }
}

/// What the operator is warned of after the record was persisted: nothing where
/// a file was written. Persisting never fails the console, for the record is only
/// a memory of what detection can find again.
pub open spec fn persist_warning(result: Result<PersistResult, CliError>) -> Option<Seq<char>> {
    match result {
        Ok(done) => if done is AllFailed {
            Some("Warning: Failed to persist configuration: no file could be written"@)
        } else {
            None
        },
        Err(e) => Some("Warning: Failed to persist configuration: "@ + e.text()),
    }
}

/// What the operator is warned of after the record was persisted.
pub fn persist_configuration(result: &Result<PersistResult, CliError>) -> (r: Option<String>)
    ensures
        opt_text(r) == persist_warning(*result),
{
    match result {
        Ok(done) => {
            if done.is_success() {
                None
            } else {
                Some("Warning: Failed to persist configuration: no file could be written".to_owned())
            }
        },
        Err(e) => {
            let said = e.message();
            Some(concat("Warning: Failed to persist configuration: ", said.as_str()))
        },
    }
}

} // verus!
