use crate::config_loader::{
    clone_mysql, default_record, opt_mysql, DorisConfig, DorisRecord, Environment, MySQLConfig,
    MySQLRecord, Timestamp,
};
use crate::error::{CliError, ErrorView};
use crate::text::{
    clone_opt, concat, concat3, contains, has_substring, join_path, opt_text, parent_path,
    path_join, path_parent, texts,
};
use vstd::prelude::*;

verus! {

/// The version that is written into the head of a stored record.
pub open spec fn version_text() -> Seq<char> {
    "0.1.0"@
}

/// The ports of both roles, in the flat layout.
#[derive(Debug, Clone, Copy, PartialEq, Eq, Structural)]
pub struct Ports {
    pub be_port: Option<u16>,
    pub brpc_port: Option<u16>,
    pub heartbeat_service_port: Option<u16>,
    pub webserver_port: Option<u16>,
    pub http_port: Option<u16>,
    pub rpc_port: Option<u16>,
    pub query_port: Option<u16>,
    pub edit_log_port: Option<u16>,
    pub cloud_http_port: Option<u16>,
}

/// The console's own settings in a stored record.
#[derive(Debug, Clone, Copy, PartialEq, Eq, Structural)]
pub struct Settings {
    pub timeout_seconds: u64,
    pub no_progress_animation: bool,
}

/// The coordination role's ports.
#[derive(Debug, Clone, Copy, PartialEq, Eq, Structural)]
pub struct FePorts {
    pub http_port: Option<u16>,
    pub rpc_port: Option<u16>,
    pub query_port: Option<u16>,
    pub edit_log_port: Option<u16>,
    pub cloud_http_port: Option<u16>,
}

/// The storage role's ports.
#[derive(Debug, Clone, Copy, PartialEq, Eq, Structural)]
pub struct BePorts {
    pub be_port: Option<u16>,
    pub brpc_port: Option<u16>,
    pub heartbeat_service_port: Option<u16>,
    pub webserver_port: Option<u16>,
}

/// The head of a stored record: the role of the host, by name, and the version
/// that wrote the file.
#[derive(Debug)]
pub struct Metadata {
    pub environment: String,
    pub version: String,
}

/// What a `Metadata` holds, as plain values.
pub struct MetadataView {
    pub environment: Seq<char>,
    pub version: Seq<char>,
}

impl View for Metadata {
    type V = MetadataView;

    open spec fn view(&self) -> MetadataView {
        MetadataView {
            environment: self.environment@,
            version: self.version@,
        }
    }
}

impl Clone for Metadata {
    fn clone(&self) -> (r: Metadata)
        ensures
            r@ == self@,
    {
        Metadata {
            environment: self.environment.clone(),
            version: self.version.clone(),
        }
    }
}

/// The directories of a stored record in the flat layout.
#[derive(Debug)]
pub struct Paths {
    pub install_dir: String,
    pub conf_dir: String,
    pub log_dir: String,
    pub jdk_path: String,
    pub output_dir: String,
    pub meta_dir: Option<String>,
}

/// What a `Paths` holds, as plain values.
pub struct PathsView {
    pub install_dir: Seq<char>,
    pub conf_dir: Seq<char>,
    pub log_dir: Seq<char>,
    pub jdk_path: Seq<char>,
    pub output_dir: Seq<char>,
    pub meta_dir: Option<Seq<char>>,
}

impl View for Paths {
    type V = PathsView;

    open spec fn view(&self) -> PathsView {
        PathsView {
            install_dir: self.install_dir@,
            conf_dir: self.conf_dir@,
            log_dir: self.log_dir@,
            jdk_path: self.jdk_path@,
            output_dir: self.output_dir@,
            meta_dir: opt_text(self.meta_dir),
        }
    }
}

impl Clone for Paths {
    fn clone(&self) -> (r: Paths)
        ensures
            r@ == self@,
    {
        Paths {
            install_dir: self.install_dir.clone(),
            conf_dir: self.conf_dir.clone(),
            log_dir: self.log_dir.clone(),
            jdk_path: self.jdk_path.clone(),
            output_dir: self.output_dir.clone(),
            meta_dir: clone_opt(&self.meta_dir),
        }
    }
}

/// The network settings of a stored record.
#[derive(Debug)]
pub struct Network {
    pub priority_networks: Option<String>,
    pub meta_service_endpoint: Option<String>,
}

/// What a `Network` holds, as plain values.
pub struct NetworkView {
    pub priority_networks: Option<Seq<char>>,
    pub meta_service_endpoint: Option<Seq<char>>,
}

impl View for Network {
    type V = NetworkView;

    open spec fn view(&self) -> NetworkView {
        NetworkView {
            priority_networks: opt_text(self.priority_networks),
            meta_service_endpoint: opt_text(self.meta_service_endpoint),
        }
    }
}

impl Clone for Network {
    fn clone(&self) -> (r: Network)
        ensures
            r@ == self@,
    {
        Network {
            priority_networks: clone_opt(&self.priority_networks),
            meta_service_endpoint: clone_opt(&self.meta_service_endpoint),
        }
    }
}

/// The process bookkeeping of a stored record; the time of detection is kept as
/// text.
#[derive(Debug)]
pub struct ProcessInfo {
    pub pid: Option<u32>,
    pub command: Option<String>,
    pub last_detected: Option<String>,
    pub be_process_pid: Option<u32>,
    pub be_process_command: Option<String>,
    pub be_install_dir: Option<String>,
    pub fe_process_pid: Option<u32>,
    pub fe_process_command: Option<String>,
    pub fe_install_dir: Option<String>,
}

/// What a `ProcessInfo` holds, as plain values.
pub struct ProcessInfoView {
    pub pid: Option<u32>,
    pub command: Option<Seq<char>>,
    pub last_detected: Option<Seq<char>>,
    pub be_process_pid: Option<u32>,
    pub be_process_command: Option<Seq<char>>,
    pub be_install_dir: Option<Seq<char>>,
    pub fe_process_pid: Option<u32>,
    pub fe_process_command: Option<Seq<char>>,
    pub fe_install_dir: Option<Seq<char>>,
}

impl View for ProcessInfo {
    type V = ProcessInfoView;

    open spec fn view(&self) -> ProcessInfoView {
        ProcessInfoView {
            pid: self.pid,
            command: opt_text(self.command),
            last_detected: opt_text(self.last_detected),
            be_process_pid: self.be_process_pid,
            be_process_command: opt_text(self.be_process_command),
            be_install_dir: opt_text(self.be_install_dir),
            fe_process_pid: self.fe_process_pid,
            fe_process_command: opt_text(self.fe_process_command),
            fe_install_dir: opt_text(self.fe_install_dir),
        }
    }
}

impl Clone for ProcessInfo {
    fn clone(&self) -> (r: ProcessInfo)
        ensures
            r@ == self@,
    {
        ProcessInfo {
            pid: self.pid,
            command: clone_opt(&self.command),
            last_detected: clone_opt(&self.last_detected),
            be_process_pid: self.be_process_pid,
            be_process_command: clone_opt(&self.be_process_command),
            be_install_dir: clone_opt(&self.be_install_dir),
            fe_process_pid: self.fe_process_pid,
            fe_process_command: clone_opt(&self.fe_process_command),
            fe_install_dir: clone_opt(&self.fe_install_dir),
        }
    }
}

/// The directories that both roles share.
#[derive(Debug)]
pub struct CommonPaths {
    pub jdk_path: String,
    pub output_dir: String,
}

/// What a `CommonPaths` holds, as plain values.
pub struct CommonPathsView {
    pub jdk_path: Seq<char>,
    pub output_dir: Seq<char>,
}

impl View for CommonPaths {
    type V = CommonPathsView;

    open spec fn view(&self) -> CommonPathsView {
        CommonPathsView {
            jdk_path: self.jdk_path@,
            output_dir: self.output_dir@,
        }
    }
}

impl Clone for CommonPaths {
    fn clone(&self) -> (r: CommonPaths)
        ensures
            r@ == self@,
    {
        CommonPaths {
            jdk_path: self.jdk_path.clone(),
            output_dir: self.output_dir.clone(),
        }
    }
}

/// The coordination role's section of the layout by role.
#[derive(Debug)]
pub struct FeConfig {
    pub install_dir: String,
    pub conf_dir: String,
    pub log_dir: String,
    pub meta_dir: Option<String>,
    pub ports: FePorts,
    pub process_pid: Option<u32>,
    pub process_command: Option<String>,
}

/// What a `FeConfig` holds, as plain values.
pub struct FeConfigView {
    pub install_dir: Seq<char>,
    pub conf_dir: Seq<char>,
    pub log_dir: Seq<char>,
    pub meta_dir: Option<Seq<char>>,
    pub ports: FePorts,
    pub process_pid: Option<u32>,
    pub process_command: Option<Seq<char>>,
}

impl View for FeConfig {
    type V = FeConfigView;

    open spec fn view(&self) -> FeConfigView {
        FeConfigView {
            install_dir: self.install_dir@,
            conf_dir: self.conf_dir@,
            log_dir: self.log_dir@,
            meta_dir: opt_text(self.meta_dir),
            ports: self.ports,
            process_pid: self.process_pid,
            process_command: opt_text(self.process_command),
        }
    }
}

impl Clone for FeConfig {
    fn clone(&self) -> (r: FeConfig)
        ensures
            r@ == self@,
    {
        FeConfig {
            install_dir: self.install_dir.clone(),
            conf_dir: self.conf_dir.clone(),
            log_dir: self.log_dir.clone(),
            meta_dir: clone_opt(&self.meta_dir),
            ports: self.ports,
            process_pid: self.process_pid,
            process_command: clone_opt(&self.process_command),
        }
    }
}

/// The storage role's section of the layout by role.
#[derive(Debug)]
pub struct BeConfig {
    pub install_dir: String,
    pub conf_dir: String,
    pub log_dir: String,
    pub ports: BePorts,
    pub process_pid: Option<u32>,
    pub process_command: Option<String>,
}

/// What a `BeConfig` holds, as plain values.
pub struct BeConfigView {
    pub install_dir: Seq<char>,
    pub conf_dir: Seq<char>,
    pub log_dir: Seq<char>,
    pub ports: BePorts,
    pub process_pid: Option<u32>,
    pub process_command: Option<Seq<char>>,
}

impl View for BeConfig {
    type V = BeConfigView;

    open spec fn view(&self) -> BeConfigView {
        BeConfigView {
            install_dir: self.install_dir@,
            conf_dir: self.conf_dir@,
            log_dir: self.log_dir@,
            ports: self.ports,
            process_pid: self.process_pid,
            process_command: opt_text(self.process_command),
        }
    }
}

impl Clone for BeConfig {
    fn clone(&self) -> (r: BeConfig)
        ensures
            r@ == self@,
    {
        BeConfig {
            install_dir: self.install_dir.clone(),
            conf_dir: self.conf_dir.clone(),
            log_dir: self.log_dir.clone(),
            ports: self.ports,
            process_pid: self.process_pid,
            process_command: clone_opt(&self.process_command),
        }
    }
}

/// A stored record in the current layout: every field of the record in flat
/// sections, and beside them the sections by role.
#[derive(Debug)]
pub struct PersistentConfig {
    pub metadata: Metadata,
    pub paths: Paths,
    pub ports: Ports,
    pub network: Network,
    pub settings: Settings,
    pub process: ProcessInfo,
    pub fe: Option<FeConfig>,
    pub be: Option<BeConfig>,
    pub mysql: Option<MySQLConfig>,
}

/// What a `PersistentConfig` holds, as plain values.
pub struct PersistentConfigView {
    pub metadata: MetadataView,
    pub paths: PathsView,
    pub ports: Ports,
    pub network: NetworkView,
    pub settings: Settings,
    pub process: ProcessInfoView,
    pub fe: Option<FeConfigView>,
    pub be: Option<BeConfigView>,
    pub mysql: Option<MySQLRecord>,
}

impl View for PersistentConfig {
    type V = PersistentConfigView;

    open spec fn view(&self) -> PersistentConfigView {
        PersistentConfigView {
            metadata: self.metadata@,
            paths: self.paths@,
            ports: self.ports,
            network: self.network@,
            settings: self.settings,
            process: self.process@,
            fe: match self.fe {
                Some(x) => Some(x@),
                None => None,
            },
            be: match self.be {
                Some(x) => Some(x@),
                None => None,
            },
            mysql: match self.mysql {
                Some(x) => Some(x@),
                None => None,
            },
        }
    }
}

impl Clone for PersistentConfig {
    fn clone(&self) -> (r: PersistentConfig)
        ensures
            r@ == self@,
    {
        PersistentConfig {
            metadata: self.metadata.clone(),
            paths: self.paths.clone(),
            ports: self.ports,
            network: self.network.clone(),
            settings: self.settings,
            process: self.process.clone(),
            fe: match &self.fe {
                Some(x) => Some(x.clone()),
                None => None,
            },
            be: match &self.be {
                Some(x) => Some(x.clone()),
                None => None,
            },
            mysql: match &self.mysql {
                Some(x) => Some(x.clone()),
                None => None,
            },
        }
    }
}

/// A stored record in the oldest layout: flat sections for a single role, without
/// process bookkeeping.
#[derive(Debug)]
pub struct LegacyConfig {
    pub metadata: Metadata,
    pub paths: Paths,
    pub ports: Ports,
    pub network: Network,
    pub settings: Settings,
}

/// What a `LegacyConfig` holds, as plain values.
pub struct LegacyConfigView {
    pub metadata: MetadataView,
    pub paths: PathsView,
    pub ports: Ports,
    pub network: NetworkView,
    pub settings: Settings,
}

impl View for LegacyConfig {
    type V = LegacyConfigView;

    open spec fn view(&self) -> LegacyConfigView {
        LegacyConfigView {
            metadata: self.metadata@,
            paths: self.paths@,
            ports: self.ports,
            network: self.network@,
            settings: self.settings,
        }
    }
}

impl Clone for LegacyConfig {
    fn clone(&self) -> (r: LegacyConfig)
        ensures
            r@ == self@,
    {
        LegacyConfig {
            metadata: self.metadata.clone(),
            paths: self.paths.clone(),
            ports: self.ports,
            network: self.network.clone(),
            settings: self.settings,
        }
    }
}

/// A stored record in the layout by role: shared sections, and one section for
/// each role that runs.
#[derive(Debug)]
pub struct OrganizedConfig {
    pub metadata: Metadata,
    pub paths: CommonPaths,
    pub fe: Option<FeConfig>,
    pub be: Option<BeConfig>,
    pub network: Network,
    pub settings: Settings,
    pub process: ProcessInfo,
    pub mysql: Option<MySQLConfig>,
}

/// What a `OrganizedConfig` holds, as plain values.
pub struct OrganizedConfigView {
    pub metadata: MetadataView,
    pub paths: CommonPathsView,
    pub fe: Option<FeConfigView>,
    pub be: Option<BeConfigView>,
    pub network: NetworkView,
    pub settings: Settings,
    pub process: ProcessInfoView,
    pub mysql: Option<MySQLRecord>,
}

impl View for OrganizedConfig {
    type V = OrganizedConfigView;

    open spec fn view(&self) -> OrganizedConfigView {
        OrganizedConfigView {
            metadata: self.metadata@,
            paths: self.paths@,
            fe: match self.fe {
                Some(x) => Some(x@),
                None => None,
            },
            be: match self.be {
                Some(x) => Some(x@),
                None => None,
            },
            network: self.network@,
            settings: self.settings,
            process: self.process@,
            mysql: match self.mysql {
                Some(x) => Some(x@),
                None => None,
            },
        }
    }
}

impl Clone for OrganizedConfig {
    fn clone(&self) -> (r: OrganizedConfig)
        ensures
            r@ == self@,
    {
        OrganizedConfig {
            metadata: self.metadata.clone(),
            paths: self.paths.clone(),
            fe: match &self.fe {
                Some(x) => Some(x.clone()),
                None => None,
            },
            be: match &self.be {
                Some(x) => Some(x.clone()),
                None => None,
            },
            network: self.network.clone(),
            settings: self.settings,
            process: self.process.clone(),
            mysql: match &self.mysql {
                Some(x) => Some(x.clone()),
                None => None,
            },
        }
    }
}

/// A stored record in the layout that holds the shared sections only.
#[derive(Debug)]
pub struct LegacyConfigWithMySQL {
    pub metadata: Metadata,
    pub paths: CommonPaths,
    pub network: Network,
    pub settings: Settings,
    pub process: ProcessInfo,
    pub mysql: Option<MySQLConfig>,
}

/// What a `LegacyConfigWithMySQL` holds, as plain values.
pub struct LegacyConfigWithMySQLView {
    pub metadata: MetadataView,
    pub paths: CommonPathsView,
    pub network: NetworkView,
    pub settings: Settings,
    pub process: ProcessInfoView,
    pub mysql: Option<MySQLRecord>,
}

impl View for LegacyConfigWithMySQL {
    type V = LegacyConfigWithMySQLView;

    open spec fn view(&self) -> LegacyConfigWithMySQLView {
        LegacyConfigWithMySQLView {
            metadata: self.metadata@,
            paths: self.paths@,
            network: self.network@,
            settings: self.settings,
            process: self.process@,
            mysql: match self.mysql {
                Some(x) => Some(x@),
                None => None,
            },
        }
    }
}

impl Clone for LegacyConfigWithMySQL {
    fn clone(&self) -> (r: LegacyConfigWithMySQL)
        ensures
            r@ == self@,
    {
        LegacyConfigWithMySQL {
            metadata: self.metadata.clone(),
            paths: self.paths.clone(),
            network: self.network.clone(),
            settings: self.settings,
            process: self.process.clone(),
            mysql: match &self.mysql {
                Some(x) => Some(x.clone()),
                None => None,
            },
        }
    }
}

/// Names what the `chrono` crate reads in a text as an RFC 3339 date and time: the
/// instant, as seconds since the start of 1970 in UTC and nanoseconds into the
/// second; nothing where the text is no such date and time.
pub uninterp spec fn rfc3339_instant(text: Seq<char>) -> Option<(i64, u32)>;

/// Names what the `chrono` crate writes for an instant as an RFC 3339 date and
/// time in UTC; nothing where the crate has no date for the instant.
pub uninterp spec fn rfc3339_text(secs: i64, nanos: u32) -> Option<Seq<char>>;

/// `DateTime::parse_from_rfc3339`, then `with_timezone` to UTC, `timestamp` and
/// `timestamp_subsec_nanos`: the instant that a text writes. The contract names
/// the result and claims nothing more.
#[verifier::external_body]
pub(crate) fn parse_rfc3339(text: &str) -> (r: Option<Timestamp>)
    ensures
        r == (match rfc3339_instant(text@) {
            Some((secs, nanos)) => Some((Timestamp { secs, nanos })),
            None => None,
        }),
{
    match chrono::DateTime::parse_from_rfc3339(text) {
        Ok(parsed) => {
            let utc = parsed.with_timezone(&chrono::Utc);
            Some(Timestamp { secs: utc.timestamp(), nanos: utc.timestamp_subsec_nanos() })
        },
        Err(_) => None,
    }
}

/// `DateTime::from_timestamp`, then `to_rfc3339`: the text that writes an instant.
/// The contract names the result and claims nothing more.
#[verifier::external_body]
pub(crate) fn format_rfc3339(instant: Timestamp) -> (r: Option<String>)
    ensures
        opt_text(r) == rfc3339_text(instant.secs, instant.nanos),
{
    chrono::DateTime::from_timestamp(instant.secs, instant.nanos).map(|utc| utc.to_rfc3339())
}

/// The instant that a text writes.
pub open spec fn instant_of(text: Seq<char>) -> Option<Timestamp> {
    match rfc3339_instant(text) {
        Some((secs, nanos)) => Some(Timestamp { secs, nanos }),
        None => None,
    }
}

/// The instant that a stored time of detection stands for; a text that is no date
/// and time stands for none.
pub open spec fn stamp_of(text: Option<Seq<char>>) -> Option<Timestamp> {
    match text {
        Some(t) => instant_of(t),
        None => None,
    }
}

/// The text under which a time of detection is stored.
pub open spec fn stamp_text(instant: Option<Timestamp>) -> Option<Seq<char>> {
    match instant {
        Some(t) => rfc3339_text(t.secs, t.nanos),
        None => None,
    }
}

/// A time of detection after it was stored and read back.
pub open spec fn reread(instant: Option<Timestamp>) -> Option<Timestamp> {
    stamp_of(stamp_text(instant))
}

/// The instant that a stored time of detection stands for.
pub fn read_stamp(text: &Option<String>) -> (r: Option<Timestamp>)
    ensures
        r == stamp_of(opt_text(*text)),
{
    match text {
        Some(t) => parse_rfc3339(t.as_str()),
        None => None,
    }
}

/// The text under which a time of detection is stored.
pub fn write_stamp(instant: &Option<Timestamp>) -> (r: Option<String>)
    ensures
        opt_text(r) == stamp_text(*instant),
{
    match instant {
        Some(t) => format_rfc3339(*t),
        None => None,
    }
}

/// The path of a directory or file as it is stored.
pub fn path_to_string(path: &str) -> (r: String)
    ensures
        r@ == path@,
{
    path.to_owned()
}

/// The head of the stored form of a record.
pub open spec fn metadata_of(rec: DorisRecord) -> MetadataView {
    MetadataView { environment: rec.environment.label_text(), version: version_text() }
}

/// The directories of a record, in the flat layout.
pub open spec fn paths_section(rec: DorisRecord) -> PathsView {
    PathsView {
        install_dir: rec.install_dir,
        conf_dir: rec.conf_dir,
        log_dir: rec.log_dir,
        jdk_path: rec.jdk_path,
        output_dir: rec.output_dir,
        meta_dir: rec.meta_dir,
    }
}

/// The ports of a record, in the flat layout.
pub open spec fn ports_section(rec: DorisRecord) -> Ports {
    Ports {
        be_port: rec.be_port,
        brpc_port: rec.brpc_port,
        heartbeat_service_port: rec.heartbeat_service_port,
        webserver_port: rec.webserver_port,
        http_port: rec.http_port,
        rpc_port: rec.rpc_port,
        query_port: rec.query_port,
        edit_log_port: rec.edit_log_port,
        cloud_http_port: rec.cloud_http_port,
    }
}

/// The network settings of a record.
pub open spec fn network_section(rec: DorisRecord) -> NetworkView {
    NetworkView {
        priority_networks: rec.priority_networks,
        meta_service_endpoint: rec.meta_service_endpoint,
    }
}

/// The console's own settings in a record.
pub open spec fn settings_section(rec: DorisRecord) -> Settings {
    Settings {
        timeout_seconds: rec.timeout_seconds,
        no_progress_animation: rec.no_progress_animation,
    }
}

/// The process bookkeeping of a record.
pub open spec fn process_section(rec: DorisRecord) -> ProcessInfoView {
    ProcessInfoView {
        pid: rec.process_pid,
        command: rec.process_command,
        last_detected: stamp_text(rec.last_detected),
        be_process_pid: rec.be_process_pid,
        be_process_command: rec.be_process_command,
        be_install_dir: rec.be_install_dir,
        fe_process_pid: rec.fe_process_pid,
        fe_process_command: rec.fe_process_command,
        fe_install_dir: rec.fe_install_dir,
    }
}

impl DorisConfig {
    /// The head of the stored form of the record.
    pub fn to_metadata(&self) -> (r: Metadata)
        ensures
            r@ == metadata_of(self@),
    {
        Metadata { environment: self.environment.label(), version: "0.1.0".to_owned() }
    }

    /// The directories of the record, in the flat layout.
    pub fn to_paths(&self) -> (r: Paths)
        ensures
            r@ == paths_section(self@),
    {
        Paths {
            install_dir: path_to_string(self.install_dir.as_str()),
            conf_dir: path_to_string(self.conf_dir.as_str()),
            log_dir: path_to_string(self.log_dir.as_str()),
            jdk_path: path_to_string(self.jdk_path.as_str()),
            output_dir: path_to_string(self.output_dir.as_str()),
            meta_dir: clone_opt(&self.meta_dir),
        }
    }

    /// The ports of the record, in the flat layout.
    pub fn to_ports(&self) -> (r: Ports)
        ensures
            r == ports_section(self@),
    {
        Ports {
            be_port: self.be_port,
            brpc_port: self.brpc_port,
            heartbeat_service_port: self.heartbeat_service_port,
            webserver_port: self.webserver_port,
            http_port: self.http_port,
            rpc_port: self.rpc_port,
            query_port: self.query_port,
            edit_log_port: self.edit_log_port,
            cloud_http_port: self.cloud_http_port,
        }
    }

    /// The network settings of the record.
    pub fn to_network(&self) -> (r: Network)
        ensures
            r@ == network_section(self@),
    {
        Network {
            priority_networks: clone_opt(&self.priority_networks),
            meta_service_endpoint: clone_opt(&self.meta_service_endpoint),
        }
    }

    /// The console's own settings in the record.
    pub fn to_settings(&self) -> (r: Settings)
        ensures
            r == settings_section(self@),
    {
        Settings {
            timeout_seconds: self.timeout_seconds,
            no_progress_animation: self.no_progress_animation,
        }
    }

    /// The process bookkeeping of the record.
    pub fn to_process_info(&self) -> (r: ProcessInfo)
        ensures
            r@ == process_section(self@),
    {
        ProcessInfo {
            pid: self.process_pid,
            command: clone_opt(&self.process_command),
            last_detected: write_stamp(&self.last_detected),
            be_process_pid: self.be_process_pid,
            be_process_command: clone_opt(&self.be_process_command),
            be_install_dir: clone_opt(&self.be_install_dir),
            fe_process_pid: self.fe_process_pid,
            fe_process_command: clone_opt(&self.fe_process_command),
            fe_install_dir: clone_opt(&self.fe_install_dir),
        }
    }
}

/// The record that the flat sections of a stored record hold.
pub open spec fn record_of_sections(
    metadata: MetadataView,
    paths: PathsView,
    ports: Ports,
    network: NetworkView,
    settings: Settings,
    process: ProcessInfoView,
    mysql: Option<MySQLRecord>,
) -> DorisRecord {
    DorisRecord {
        environment: Environment::of_label(metadata.environment),
        install_dir: paths.install_dir,
        conf_dir: paths.conf_dir,
        log_dir: paths.log_dir,
        jdk_path: paths.jdk_path,
        output_dir: paths.output_dir,
        timeout_seconds: settings.timeout_seconds,
        no_progress_animation: settings.no_progress_animation,
        process_pid: process.pid,
        process_command: process.command,
        last_detected: stamp_of(process.last_detected),
        be_port: ports.be_port,
        brpc_port: ports.brpc_port,
        heartbeat_service_port: ports.heartbeat_service_port,
        webserver_port: ports.webserver_port,
        be_process_pid: process.be_process_pid,
        be_process_command: process.be_process_command,
        be_install_dir: process.be_install_dir,
        http_port: ports.http_port,
        rpc_port: ports.rpc_port,
        query_port: ports.query_port,
        edit_log_port: ports.edit_log_port,
        cloud_http_port: ports.cloud_http_port,
        meta_dir: paths.meta_dir,
        fe_process_pid: process.fe_process_pid,
        fe_process_command: process.fe_process_command,
        fe_install_dir: process.fe_install_dir,
        priority_networks: network.priority_networks,
        meta_service_endpoint: network.meta_service_endpoint,
        mysql,
    }
}

/// The record that a stored record in the current layout holds. The flat
/// sections say everything; the sections by role say nothing more.
pub open spec fn record_of_persistent(stored: PersistentConfigView) -> DorisRecord {
    record_of_sections(
        stored.metadata,
        stored.paths,
        stored.ports,
        stored.network,
        stored.settings,
        stored.process,
        stored.mysql,
    )
}

/// Builds a record from flat sections.
fn record_from_sections(
    metadata: &Metadata,
    paths: &Paths,
    ports: &Ports,
    network: &Network,
    settings: &Settings,
    process: &ProcessInfo,
    mysql: &Option<MySQLConfig>,
) -> (r: DorisConfig)
    ensures
        r@ == record_of_sections(
            metadata@,
            paths@,
            *ports,
            network@,
            *settings,
            process@,
            opt_mysql(*mysql),
        ),
{
    DorisConfig {
        environment: Environment::from_label(metadata.environment.as_str()),
        install_dir: paths.install_dir.clone(),
        conf_dir: paths.conf_dir.clone(),
        log_dir: paths.log_dir.clone(),
        jdk_path: paths.jdk_path.clone(),
        output_dir: paths.output_dir.clone(),
        timeout_seconds: settings.timeout_seconds,
        no_progress_animation: settings.no_progress_animation,
        process_pid: process.pid,
        process_command: clone_opt(&process.command),
        last_detected: read_stamp(&process.last_detected),
        be_port: ports.be_port,
        brpc_port: ports.brpc_port,
        heartbeat_service_port: ports.heartbeat_service_port,
        webserver_port: ports.webserver_port,
        be_process_pid: process.be_process_pid,
        be_process_command: clone_opt(&process.be_process_command),
        be_install_dir: clone_opt(&process.be_install_dir),
        http_port: ports.http_port,
        rpc_port: ports.rpc_port,
        query_port: ports.query_port,
        edit_log_port: ports.edit_log_port,
        cloud_http_port: ports.cloud_http_port,
        meta_dir: clone_opt(&paths.meta_dir),
        fe_process_pid: process.fe_process_pid,
        fe_process_command: clone_opt(&process.fe_process_command),
        fe_install_dir: clone_opt(&process.fe_install_dir),
        priority_networks: clone_opt(&network.priority_networks),
        meta_service_endpoint: clone_opt(&network.meta_service_endpoint),
        mysql: clone_mysql(mysql),
    }
}

impl PersistentConfig {
    /// The record that the stored record holds.
    pub fn convert_to(&self) -> (r: DorisConfig)
        ensures
            r@ == record_of_persistent(self@),
    {
        record_from_sections(
            &self.metadata,
            &self.paths,
            &self.ports,
            &self.network,
            &self.settings,
            &self.process,
            &self.mysql,
        )
    }
}

/// The record that a stored record in the current layout holds.
pub fn from_persistent_config(persistent: PersistentConfig) -> (r: DorisConfig)
    ensures
        r@ == record_of_persistent(persistent@),
{
    persistent.convert_to()
}

/// The coordination role's section of a record: there is one where the host runs
/// that role, alone or beside the other. Its directories are those under the
/// role's own install directory, or under the record's where the role has none of
/// its own; its process is the record's on a host of that role alone.
pub open spec fn fe_section(rec: DorisRecord) -> Option<FeConfigView> {
    if rec.environment == Environment::FE || rec.environment == Environment::Mixed {
        let home = match rec.fe_install_dir {
            Some(d) => d,
            None => rec.install_dir,
        };
        let alone = rec.environment == Environment::FE;
        Some(
            FeConfigView {
                install_dir: home,
                conf_dir: path_join(home, "conf"@),
                log_dir: path_join(home, "log"@),
                meta_dir: rec.meta_dir,
                ports: FePorts {
                    http_port: rec.http_port,
                    rpc_port: rec.rpc_port,
                    query_port: rec.query_port,
                    edit_log_port: rec.edit_log_port,
                    cloud_http_port: rec.cloud_http_port,
                },
                process_pid: if alone {
                    rec.process_pid
                } else {
                    rec.fe_process_pid
                },
                process_command: if alone {
                    rec.process_command
                } else {
                    rec.fe_process_command
                },
            },
        )
    } else {
        None
    }
}

/// The storage role's section of a record.
pub open spec fn be_section(rec: DorisRecord) -> Option<BeConfigView> {
    if rec.environment == Environment::BE || rec.environment == Environment::Mixed {
        let home = match rec.be_install_dir {
            Some(d) => d,
            None => rec.install_dir,
        };
        let alone = rec.environment == Environment::BE;
        Some(
            BeConfigView {
                install_dir: home,
                conf_dir: path_join(home, "conf"@),
                log_dir: path_join(home, "log"@),
                ports: BePorts {
                    be_port: rec.be_port,
                    brpc_port: rec.brpc_port,
                    heartbeat_service_port: rec.heartbeat_service_port,
                    webserver_port: rec.webserver_port,
                },
                process_pid: if alone {
                    rec.process_pid
                } else {
                    rec.be_process_pid
                },
                process_command: if alone {
                    rec.process_command
                } else {
                    rec.be_process_command
                },
            },
        )
    } else {
        None
    }
}

/// A record in the layout by role.
pub open spec fn organized_of(rec: DorisRecord) -> OrganizedConfigView {
    OrganizedConfigView {
        metadata: metadata_of(rec),
        paths: CommonPathsView { jdk_path: rec.jdk_path, output_dir: rec.output_dir },
        fe: fe_section(rec),
        be: be_section(rec),
        network: network_section(rec),
        settings: settings_section(rec),
        process: process_section(rec),
        mysql: rec.mysql,
    }
}

/// The coordination role's section of a record.
fn fe_config_of(config: &DorisConfig) -> (r: Option<FeConfig>)
    ensures
        (match r {
            Some(x) => Some(x@),
            None => None,
        }) == fe_section(config@),
{
    let alone = config.environment == Environment::FE;
    if alone || config.environment == Environment::Mixed {
        let home = match &config.fe_install_dir {
            Some(d) => d.clone(),
            None => config.install_dir.clone(),
        };
        Some(
            FeConfig {
                conf_dir: join_path(home.as_str(), "conf"),
                log_dir: join_path(home.as_str(), "log"),
                install_dir: home,
                meta_dir: clone_opt(&config.meta_dir),
                ports: FePorts {
                    http_port: config.http_port,
                    rpc_port: config.rpc_port,
                    query_port: config.query_port,
                    edit_log_port: config.edit_log_port,
                    cloud_http_port: config.cloud_http_port,
                },
                process_pid: if alone {
                    config.process_pid
                } else {
                    config.fe_process_pid
                },
                process_command: if alone {
                    clone_opt(&config.process_command)
                } else {
                    clone_opt(&config.fe_process_command)
                },
            },
        )
    } else {
        None
    }
}

/// The storage role's section of a record.
fn be_config_of(config: &DorisConfig) -> (r: Option<BeConfig>)
    ensures
        (match r {
            Some(x) => Some(x@),
            None => None,
        }) == be_section(config@),
{
    let alone = config.environment == Environment::BE;
    if alone || config.environment == Environment::Mixed {
        let home = match &config.be_install_dir {
            Some(d) => d.clone(),
            None => config.install_dir.clone(),
        };
        Some(
            BeConfig {
                conf_dir: join_path(home.as_str(), "conf"),
                log_dir: join_path(home.as_str(), "log"),
                install_dir: home,
                ports: BePorts {
                    be_port: config.be_port,
                    brpc_port: config.brpc_port,
                    heartbeat_service_port: config.heartbeat_service_port,
                    webserver_port: config.webserver_port,
                },
                process_pid: if alone {
                    config.process_pid
                } else {
                    config.be_process_pid
                },
                process_command: if alone {
                    clone_opt(&config.process_command)
                } else {
                    clone_opt(&config.be_process_command)
                },
            },
        )
    } else {
        None
    }
}

/// A record in the layout by role.
pub fn to_organized_config(config: &DorisConfig) -> (r: OrganizedConfig)
    ensures
        r@ == organized_of(config@),
{
    OrganizedConfig {
        metadata: config.to_metadata(),
        paths: CommonPaths {
            jdk_path: path_to_string(config.jdk_path.as_str()),
            output_dir: path_to_string(config.output_dir.as_str()),
        },
        fe: fe_config_of(config),
        be: be_config_of(config),
        network: config.to_network(),
        settings: config.to_settings(),
        process: config.to_process_info(),
        mysql: clone_mysql(&config.mysql),
    }
}

/// A record in the current layout: every field in the flat sections, and the
/// sections by role beside them.
pub open spec fn persistent_of(rec: DorisRecord) -> PersistentConfigView {
    PersistentConfigView {
        metadata: metadata_of(rec),
        paths: paths_section(rec),
        ports: ports_section(rec),
        network: network_section(rec),
        settings: settings_section(rec),
        process: process_section(rec),
        fe: fe_section(rec),
        be: be_section(rec),
        mysql: rec.mysql,
    }
}

/// A record in the current layout, as it is written to disk.
pub fn to_persistent_config(config: &DorisConfig) -> (r: PersistentConfig)
    ensures
        r@ == persistent_of(config@),
{
    let by_role = to_organized_config(config);
    PersistentConfig {
        metadata: config.to_metadata(),
        paths: config.to_paths(),
        ports: config.to_ports(),
        network: config.to_network(),
        settings: config.to_settings(),
        process: config.to_process_info(),
        fe: by_role.fe,
        be: by_role.be,
        mysql: clone_mysql(&config.mysql),
    }
}

/// The record that a stored record in the layout by role holds. The shared
/// sections give the settings and the main process; each role's section gives the
/// role's ports and process; and the main directories are those of the role of the
/// host, of the storage role on a mixed host.
pub open spec fn record_of_organized(stored: OrganizedConfigView) -> DorisRecord {
    let environment = Environment::of_label(stored.metadata.environment);
    let base = DorisRecord {
        environment,
        install_dir: seq![],
        conf_dir: seq![],
        log_dir: seq![],
        jdk_path: stored.paths.jdk_path,
        output_dir: stored.paths.output_dir,
        timeout_seconds: stored.settings.timeout_seconds,
        no_progress_animation: stored.settings.no_progress_animation,
        priority_networks: stored.network.priority_networks,
        meta_service_endpoint: stored.network.meta_service_endpoint,
        process_pid: stored.process.pid,
        process_command: stored.process.command,
        last_detected: stamp_of(stored.process.last_detected),
        mysql: stored.mysql,
        ..default_record()
    };
    let with_be = match stored.be {
        Some(be) => {
            let main = environment == Environment::BE || environment == Environment::Mixed;
            DorisRecord {
                be_port: be.ports.be_port,
                brpc_port: be.ports.brpc_port,
                heartbeat_service_port: be.ports.heartbeat_service_port,
                webserver_port: be.ports.webserver_port,
                install_dir: if main {
                    be.install_dir
                } else {
                    base.install_dir
                },
                conf_dir: if main {
                    be.conf_dir
                } else {
                    base.conf_dir
                },
                log_dir: if main {
                    be.log_dir
                } else {
                    base.log_dir
                },
                be_process_pid: be.process_pid,
                be_process_command: be.process_command,
                be_install_dir: Some(be.install_dir),
                ..base
            }
        },
        None => base,
    };
    match stored.fe {
        Some(fe) => {
            let main = environment == Environment::FE || (environment == Environment::Mixed
                && stored.be is None);
            DorisRecord {
                http_port: fe.ports.http_port,
                rpc_port: fe.ports.rpc_port,
                query_port: fe.ports.query_port,
                edit_log_port: fe.ports.edit_log_port,
                cloud_http_port: fe.ports.cloud_http_port,
                meta_dir: fe.meta_dir,
                install_dir: if main {
                    fe.install_dir
                } else {
                    with_be.install_dir
                },
                conf_dir: if main {
                    fe.conf_dir
                } else {
                    with_be.conf_dir
                },
                log_dir: if main {
                    fe.log_dir
                } else {
                    with_be.log_dir
                },
                fe_process_pid: fe.process_pid,
                fe_process_command: fe.process_command,
                fe_install_dir: Some(fe.install_dir),
                ..with_be
            }
        },
        None => with_be,
    }
}

/// The record that a stored record in the layout by role holds.
pub fn from_organized_config(organized: &OrganizedConfig) -> (r: DorisConfig)
    ensures
        r@ == record_of_organized(organized@),
{
    let environment = Environment::from_label(organized.metadata.environment.as_str());
    let mut config = DorisConfig::default();
    config.environment = environment;
    config.install_dir = String::new();
    config.conf_dir = String::new();
    config.log_dir = String::new();
    config.jdk_path = organized.paths.jdk_path.clone();
    config.output_dir = organized.paths.output_dir.clone();
    config.timeout_seconds = organized.settings.timeout_seconds;
    config.no_progress_animation = organized.settings.no_progress_animation;
    config.priority_networks = clone_opt(&organized.network.priority_networks);
    config.meta_service_endpoint = clone_opt(&organized.network.meta_service_endpoint);
    config.process_pid = organized.process.pid;
    config.process_command = clone_opt(&organized.process.command);
    config.last_detected = read_stamp(&organized.process.last_detected);
    config.mysql = clone_mysql(&organized.mysql);
    assert(config.install_dir@ =~= seq![]);
    match &organized.be {
        Some(be) => {
            config.be_port = be.ports.be_port;
            config.brpc_port = be.ports.brpc_port;
            config.heartbeat_service_port = be.ports.heartbeat_service_port;
            config.webserver_port = be.ports.webserver_port;
            if environment == Environment::BE {
                config.install_dir = be.install_dir.clone();
                config.conf_dir = be.conf_dir.clone();
                config.log_dir = be.log_dir.clone();
            }
            config.be_process_pid = be.process_pid;
            config.be_process_command = clone_opt(&be.process_command);
            config.be_install_dir = Some(be.install_dir.clone());
        },
        None => {},
    }
    match &organized.fe {
        Some(fe) => {
            config.http_port = fe.ports.http_port;
            config.rpc_port = fe.ports.rpc_port;
            config.query_port = fe.ports.query_port;
            config.edit_log_port = fe.ports.edit_log_port;
            config.cloud_http_port = fe.ports.cloud_http_port;
            config.meta_dir = clone_opt(&fe.meta_dir);
            if environment == Environment::FE {
                config.install_dir = fe.install_dir.clone();
                config.conf_dir = fe.conf_dir.clone();
                config.log_dir = fe.log_dir.clone();
            }
            config.fe_process_pid = fe.process_pid;
            config.fe_process_command = clone_opt(&fe.process_command);
            config.fe_install_dir = Some(fe.install_dir.clone());
        },
        None => {},
    }
    if environment == Environment::Mixed {
        match &organized.be {
            Some(be) => {
                config.install_dir = be.install_dir.clone();
                config.conf_dir = be.conf_dir.clone();
                config.log_dir = be.log_dir.clone();
            },
            None => match &organized.fe {
                Some(fe) => {
                    config.install_dir = fe.install_dir.clone();
                    config.conf_dir = fe.conf_dir.clone();
                    config.log_dir = fe.log_dir.clone();
                },
                None => {},
            },
        }
    }
    config
}

/// The record that a stored record with shared sections only holds: the
/// directories of the installation are the assumed ones, and no port is known.
pub open spec fn record_of_common(stored: LegacyConfigWithMySQLView) -> DorisRecord {
    DorisRecord {
        environment: Environment::of_label(stored.metadata.environment),
        jdk_path: stored.paths.jdk_path,
        output_dir: stored.paths.output_dir,
        timeout_seconds: stored.settings.timeout_seconds,
        no_progress_animation: stored.settings.no_progress_animation,
        process_pid: stored.process.pid,
        process_command: stored.process.command,
        last_detected: stamp_of(stored.process.last_detected),
        be_process_pid: stored.process.be_process_pid,
        be_process_command: stored.process.be_process_command,
        be_install_dir: stored.process.be_install_dir,
        fe_process_pid: stored.process.fe_process_pid,
        fe_process_command: stored.process.fe_process_command,
        fe_install_dir: stored.process.fe_install_dir,
        priority_networks: stored.network.priority_networks,
        meta_service_endpoint: stored.network.meta_service_endpoint,
        mysql: stored.mysql,
        ..default_record()
    }
}

/// The record that a stored record with shared sections only holds.
pub fn parse_legacy_config_with_mysql(legacy: &LegacyConfigWithMySQL) -> (r: DorisConfig)
    ensures
        r@ == record_of_common(legacy@),
{
    let mut config = DorisConfig::default();
    config.environment = Environment::from_label(legacy.metadata.environment.as_str());
    config.jdk_path = legacy.paths.jdk_path.clone();
    config.output_dir = legacy.paths.output_dir.clone();
    config.timeout_seconds = legacy.settings.timeout_seconds;
    config.no_progress_animation = legacy.settings.no_progress_animation;
    config.process_pid = legacy.process.pid;
    config.process_command = clone_opt(&legacy.process.command);
    config.last_detected = read_stamp(&legacy.process.last_detected);
    config.be_process_pid = legacy.process.be_process_pid;
    config.be_process_command = clone_opt(&legacy.process.be_process_command);
    config.be_install_dir = clone_opt(&legacy.process.be_install_dir);
    config.fe_process_pid = legacy.process.fe_process_pid;
    config.fe_process_command = clone_opt(&legacy.process.fe_process_command);
    config.fe_install_dir = clone_opt(&legacy.process.fe_install_dir);
    config.priority_networks = clone_opt(&legacy.network.priority_networks);
    config.meta_service_endpoint = clone_opt(&legacy.network.meta_service_endpoint);
    config.mysql = clone_mysql(&legacy.mysql);
    config
}

/// Process bookkeeping that knows of no process.
pub open spec fn no_process() -> ProcessInfoView {
    ProcessInfoView {
        pid: None,
        command: None,
        last_detected: None,
        be_process_pid: None,
        be_process_command: None,
        be_install_dir: None,
        fe_process_pid: None,
        fe_process_command: None,
        fe_install_dir: None,
    }
}

/// A stored record of the oldest layout brought into the current one: its
/// sections as they are, with process bookkeeping that knows of no process.
pub open spec fn migrated(legacy: LegacyConfigView) -> PersistentConfigView {
    PersistentConfigView {
        metadata: legacy.metadata,
        paths: legacy.paths,
        ports: legacy.ports,
        network: legacy.network,
        settings: legacy.settings,
        process: no_process(),
        fe: None,
        be: None,
        mysql: None,
    }
}

/// Brings a stored record of the oldest layout into the current one.
pub fn migrate_legacy_config(legacy: LegacyConfig) -> (r: PersistentConfig)
    ensures
        r@ == migrated(legacy@),
{
    PersistentConfig {
        metadata: legacy.metadata,
        paths: legacy.paths,
        ports: legacy.ports,
        network: legacy.network,
        settings: legacy.settings,
        process: ProcessInfo {
            pid: None,
            command: None,
            last_detected: None,
            be_process_pid: None,
            be_process_command: None,
            be_install_dir: None,
            fe_process_pid: None,
            fe_process_command: None,
            fe_install_dir: None,
        },
        fe: None,
        be: None,
        mysql: None,
    }
}

/// Writing a record in the current layout and reading it back gives the record,
/// with its time of detection as the date library reads what it wrote. Nothing
/// else of a record is lost, whatever layout it once came from.
pub proof fn lemma_round_trip(rec: DorisRecord)
    ensures
        record_of_persistent(persistent_of(rec)) == (DorisRecord {
            last_detected: reread(rec.last_detected),
            ..rec
        }),
{
    crate::config_loader::lemma_label_round_trip(rec.environment);
}

/// A stored record of the oldest layout, once brought into the current layout, is
/// read back from it exactly as it was migrated.
pub proof fn lemma_round_trip_migrated(legacy: LegacyConfigView)
    ensures
        record_of_persistent(persistent_of(record_of_persistent(migrated(legacy))))
            == record_of_persistent(migrated(legacy)),
{
    let rec = record_of_persistent(migrated(legacy));
    lemma_round_trip(rec);
}

/// The file in which the record is kept, under a user's home directory.
pub open spec fn config_file_of(home: Seq<char>) -> Seq<char> {
    path_join(path_join(path_join(home, ".config"@), "cloud-cli"@), "config.toml"@)
}

/// What is said where the user has no home directory to keep the record in.
pub open spec fn no_home() -> ErrorView {
    ErrorView::ConfigError("Could not determine user home directory for config path"@)
}

/// The files in which the record is kept, in order of preference: the one under
/// the user's home directory. Without a home directory there is nowhere to keep
/// it, and that is a failure.
pub fn get_config_file_paths(home: Option<&str>) -> (r: Result<Vec<String>, CliError>)
    ensures
        match home {
            Some(h) => r is Ok && texts(r->Ok_0@) == seq![config_file_of(h@)],
            None => r is Err && r->Err_0@ == no_home(),
        },
{
    match home {
        Some(h) => {
            let dir = join_path(h, ".config");
            let app = join_path(dir.as_str(), "cloud-cli");
            let file = join_path(app.as_str(), "config.toml");
            let mut paths: Vec<String> = Vec::new();
            paths.push(file);
            assert(texts(paths@) =~= seq![config_file_of(h@)]);
            Ok(paths)
        },
        None => Err(
            CliError::ConfigError(
                "Could not determine user home directory for config path".to_owned(),
            ),
        ),
    }
}

/// How writing the record to one file went.
#[derive(Debug)]
pub enum WriteOutcome {
    /// The directory of the file could not be made; the text is the system's message.
    DirectoryFailed(String),
    /// The directory of the file cannot be written to.
    NotWritable,
    /// The file could not be created.
    CreateFailed(String),
    /// The file could not be written.
    WriteFailed(String),
    /// The file was written.
    Written,
}

/// What a `WriteOutcome` holds, as plain values.
pub enum WriteOutcomeView {
    DirectoryFailed(Seq<char>),
    NotWritable,
    CreateFailed(Seq<char>),
    WriteFailed(Seq<char>),
    Written,
}

impl View for WriteOutcome {
    type V = WriteOutcomeView;

    open spec fn view(&self) -> WriteOutcomeView {
        match self {
            WriteOutcome::DirectoryFailed(e) => WriteOutcomeView::DirectoryFailed(e@),
            WriteOutcome::NotWritable => WriteOutcomeView::NotWritable,
            WriteOutcome::CreateFailed(e) => WriteOutcomeView::CreateFailed(e@),
            WriteOutcome::WriteFailed(e) => WriteOutcomeView::WriteFailed(e@),
            WriteOutcome::Written => WriteOutcomeView::Written,
        }
    }
}

/// One attempt to write the record: the file, and how it went.
#[derive(Debug)]
pub struct WriteAttempt {
    pub path: String,
    pub outcome: WriteOutcome,
}

/// What a `WriteAttempt` holds, as plain values.
pub struct WriteAttemptView {
    pub path: Seq<char>,
    pub outcome: WriteOutcomeView,
}

impl View for WriteAttempt {
    type V = WriteAttemptView;

    open spec fn view(&self) -> WriteAttemptView {
        WriteAttemptView { path: self.path@, outcome: self.outcome@ }
    }
}

/// What a vector of attempts holds.
pub open spec fn attempts_of(v: Seq<WriteAttempt>) -> Seq<WriteAttemptView> {
    Seq::new(v.len(), |i: int| v[i]@)
}

/// What a vector of files with their faults holds.
pub open spec fn faults_of(v: Seq<(String, String)>) -> Seq<(Seq<char>, Seq<char>)> {
    Seq::new(v.len(), |i: int| (v[i].0@, v[i].1@))
}

/// How persisting the record went.
#[derive(Debug)]
pub enum PersistResult {
    /// The first file was written.
    Success(String),
    /// A file was written after others had failed.
    PartialSuccess(String, Vec<(String, String)>),
    /// No file could be written.
    AllFailed(Vec<(String, String)>),
}

/// What a `PersistResult` holds, as plain values.
pub enum PersistResultView {
    Success(Seq<char>),
    PartialSuccess(Seq<char>, Seq<(Seq<char>, Seq<char>)>),
    AllFailed(Seq<(Seq<char>, Seq<char>)>),
}

impl View for PersistResult {
    type V = PersistResultView;

    open spec fn view(&self) -> PersistResultView {
        match self {
            PersistResult::Success(p) => PersistResultView::Success(p@),
            PersistResult::PartialSuccess(p, e) => PersistResultView::PartialSuccess(
                p@,
                faults_of(e@),
            ),
            PersistResult::AllFailed(e) => PersistResultView::AllFailed(faults_of(e@)),
        }
    }
}

impl PersistResult {
    /// Whether the record was written somewhere.
    pub fn is_success(&self) -> (b: bool)
        ensures
            b == !(self is AllFailed),
    {
        match self {
            PersistResult::AllFailed(_) => false,
            _ => true,
        }
    }
}

/// What is noted of an attempt that failed; nothing of one that wrote the file.
pub open spec fn fault_text(attempt: WriteAttemptView) -> Option<Seq<char>> {
    match attempt.outcome {
        WriteOutcomeView::DirectoryFailed(e) => Some(
            "Failed to create directory: Configuration error: Failed to create directory "@
                + path_parent(attempt.path) + ": "@ + e,
        ),
        WriteOutcomeView::NotWritable => Some("No write permission"@),
        WriteOutcomeView::CreateFailed(e) => Some("Create file error: "@ + e),
        WriteOutcomeView::WriteFailed(e) => Some("Write error: "@ + e),
        WriteOutcomeView::Written => None,
    }
}

/// What is said where there was no file to try.
pub open spec fn nowhere_to_persist() -> ErrorView {
    ErrorView::ConfigError("No valid paths to persist config"@)
}

/// How persisting went, from the attempts in order and the faults noted so far:
/// the first file that was written ends it.
pub open spec fn persisted(
    attempts: Seq<WriteAttemptView>,
    faults: Seq<(Seq<char>, Seq<char>)>,
) -> Result<PersistResultView, ErrorView>
    decreases attempts.len(),
{
    if attempts.len() == 0 {
        if faults.len() > 0 {
            Ok(PersistResultView::AllFailed(faults))
        } else {
            Err(nowhere_to_persist())
        }
    } else {
        match fault_text(attempts[0]) {
            Some(text) => persisted(attempts.drop_first(), faults.push((attempts[0].path, text))),
            None => if faults.len() == 0 {
                Ok(PersistResultView::Success(attempts[0].path))
            } else {
                Ok(PersistResultView::PartialSuccess(attempts[0].path, faults))
            },
        }
    }
}

/// Whether the next file is to be tried after an attempt: only where the attempt
/// failed, for the first file that was written ends persisting.
pub fn try_next_after(attempt: &WriteAttempt) -> (b: bool)
    ensures
        b == (fault_text(attempt@) is Some),
{
    fault_of(attempt).is_some()
}

/// What is noted of an attempt that failed.
pub fn fault_of(attempt: &WriteAttempt) -> (r: Option<String>)
    ensures
        opt_text(r) == fault_text(attempt@),
{
    match &attempt.outcome {
        WriteOutcome::DirectoryFailed(e) => {
            let parent = parent_path(attempt.path.as_str());
            let head = concat(
                "Failed to create directory: Configuration error: Failed to create directory ",
                parent.as_str(),
            );
            Some(concat3(head.as_str(), ": ", e.as_str()))
        },
        WriteOutcome::NotWritable => Some("No write permission".to_owned()),
        WriteOutcome::CreateFailed(e) => Some(concat("Create file error: ", e.as_str())),
        WriteOutcome::WriteFailed(e) => Some(concat("Write error: ", e.as_str())),
        WriteOutcome::Written => None,
    }
}

/// What a result of persisting holds, as plain values.
pub open spec fn persist_view(r: Result<PersistResult, CliError>) -> Result<
    PersistResultView,
    ErrorView,
> {
    match r {
        Ok(p) => Ok(p@),
        Err(e) => Err(e@),
    }
}

/// Sums up how persisting the record went, from the attempts on the files in
/// order of preference. It is a failure only where there was no file to try.
pub fn persist_config(attempts: &Vec<WriteAttempt>) -> (r: Result<PersistResult, CliError>)
    ensures
        persist_view(r) == persisted(attempts_of(attempts@), seq![]),
{
    let mut errors: Vec<(String, String)> = Vec::new();
    let mut i: usize = 0;
    let ghost all = attempts_of(attempts@);
    assert(all.skip(0) == all);
    assert(faults_of(errors@) =~= seq![]);
    while i < attempts.len()
        invariant
            i <= attempts.len(),
            all == attempts_of(attempts@),
            persisted(all, seq![]) == persisted(all.skip(i as int), faults_of(errors@)),
        decreases attempts.len() - i,
    {
        assert(all.skip(i as int)[0] == attempts@[i as int]@);
        assert(all.skip(i as int).drop_first() == all.skip(i + 1));
        match fault_of(&attempts[i]) {
            Some(text) => {
                let ghost before = faults_of(errors@);
                errors.push((attempts[i].path.clone(), text));
                assert(faults_of(errors@) =~= before.push((attempts@[i as int].path@, text@)));
            },
            None => {
                if errors.len() == 0 {
                    return Ok(PersistResult::Success(attempts[i].path.clone()));
                } else {
                    return Ok(PersistResult::PartialSuccess(attempts[i].path.clone(), errors));
                }
            },
        }
        i += 1;
    }
    if errors.len() > 0 {
        Ok(PersistResult::AllFailed(errors))
    } else {
        Err(CliError::ConfigError("No valid paths to persist config".to_owned()))
    }
}

/// What parsing a stored file against each known layout gave.
#[derive(Debug)]
pub struct ParsedShapes {
    /// Against the current layout; the text is the parser's complaint.
    pub current: Result<PersistentConfig, String>,
    /// Against the oldest layout: flat sections without process bookkeeping.
    pub flat: Option<LegacyConfig>,
    /// Against the layout by role.
    pub organized: Option<OrganizedConfig>,
    /// Against the layout with shared sections only.
    pub common: Option<LegacyConfigWithMySQL>,
}

/// What a `ParsedShapes` holds, as plain values.
pub struct ParsedShapesView {
    pub current: Result<PersistentConfigView, Seq<char>>,
    pub flat: Option<LegacyConfigView>,
    pub organized: Option<OrganizedConfigView>,
    pub common: Option<LegacyConfigWithMySQLView>,
}

impl View for ParsedShapes {
    type V = ParsedShapesView;

    open spec fn view(&self) -> ParsedShapesView {
        ParsedShapesView {
            current: match self.current {
                Ok(p) => Ok(p@),
                Err(e) => Err(e@),
            },
            flat: match self.flat {
                Some(x) => Some(x@),
                None => None,
            },
            organized: match self.organized {
                Some(x) => Some(x@),
                None => None,
            },
            common: match self.common {
                Some(x) => Some(x@),
                None => None,
            },
        }
    }
}

/// The stored file, as it was found.
#[derive(Debug)]
pub enum StoredFile {
    /// There is no stored file.
    Absent,
    /// The file is there but could not be read; the text is the system's message.
    Unreadable(String),
    /// The file was read and held against the known layouts.
    Read(ParsedShapes),
}

/// What a `StoredFile` holds, as plain values.
pub enum StoredFileView {
    Absent,
    Unreadable(Seq<char>),
    Read(ParsedShapesView),
}

impl View for StoredFile {
    type V = StoredFileView;

    open spec fn view(&self) -> StoredFileView {
        match self {
            StoredFile::Absent => StoredFileView::Absent,
            StoredFile::Unreadable(e) => StoredFileView::Unreadable(e@),
            StoredFile::Read(shapes) => StoredFileView::Read(shapes@),
        }
    }
}

/// What loading gives: the record, whether the file is to be rewritten in the
/// current layout, and what the operator is to be warned of.
#[derive(Debug)]
pub struct LoadedConfig {
    pub config: DorisConfig,
    pub migrated: bool,
    pub warning: Option<String>,
}

/// What a `LoadedConfig` holds, as plain values.
pub struct LoadedView {
    pub record: DorisRecord,
    pub migrated: bool,
    pub warning: Option<Seq<char>>,
}

impl View for LoadedConfig {
    type V = LoadedView;

    open spec fn view(&self) -> LoadedView {
        LoadedView {
            record: self.config@,
            migrated: self.migrated,
            warning: opt_text(self.warning),
        }
    }
}

/// Whether a parser's complaint is of a field that the file lacks: the one
/// complaint that older layouts answer.
pub open spec fn lacks_field(complaint: Seq<char>) -> bool {
    has_substring(complaint, "missing field"@)
}

/// Whether a stored record in the layout by role has a section for a role.
pub open spec fn has_role_section(stored: OrganizedConfigView) -> bool {
    stored.fe is Some || stored.be is Some
}

/// The record of a file that answers to an older layout, oldest first: the flat
/// layout without process bookkeeping; the layout by role, where a role has a
/// section; the layout with shared sections only. Nothing where the file answers
/// to none of them.
pub open spec fn legacy_record(shapes: ParsedShapesView) -> Option<DorisRecord> {
    match shapes.flat {
        Some(flat) => Some(record_of_persistent(migrated(flat))),
        None => match shapes.organized {
            Some(o) if has_role_section(o) => Some(record_of_organized(o)),
            _ => match shapes.common {
                Some(c) => Some(record_of_common(c)),
                None => None,
            },
        },
    }
}

/// The warning of a file that could not be parsed.
pub open spec fn parse_warning(path: Seq<char>, complaint: Seq<char>) -> Seq<char> {
    "Failed to parse config file "@ + path + ": "@ + complaint
}

/// The warning of a file that could not be read.
pub open spec fn read_warning(path: Seq<char>, reason: Seq<char>) -> Seq<char> {
    "Failed to read config file "@ + path + ": "@ + reason
}

/// What loading the stored file at `path` gives. A file in the current layout is
/// taken as it is. A file that lacks a field of the current layout is held
/// against the older layouts, and is to be rewritten where it answers to one. In
/// every other case the default record stands in, with a warning where a file
/// was there.
pub open spec fn loaded(path: Seq<char>, file: StoredFileView) -> LoadedView {
    match file {
        StoredFileView::Absent => LoadedView {
            record: default_record(),
            migrated: false,
            warning: None,
        },
        StoredFileView::Unreadable(reason) => LoadedView {
            record: default_record(),
            migrated: false,
            warning: Some(read_warning(path, reason)),
        },
        StoredFileView::Read(shapes) => match shapes.current {
            Ok(stored) => LoadedView {
                record: record_of_persistent(stored),
                migrated: false,
                warning: None,
            },
            Err(complaint) => {
                let older = if lacks_field(complaint) {
                    legacy_record(shapes)
                } else {
                    None
                };
                match older {
                    Some(record) => LoadedView { record, migrated: true, warning: None },
                    None => LoadedView {
                        record: default_record(),
                        migrated: false,
                        warning: Some(parse_warning(path, complaint)),
                    },
                }
            },
        },
    }
}

/// The record of a file that answers to an older layout.
fn legacy_config(
    flat: Option<LegacyConfig>,
    organized: Option<OrganizedConfig>,
    common: Option<LegacyConfigWithMySQL>,
) -> (r: Option<DorisConfig>)
    ensures
        (match r {
            Some(c) => Some(c@),
            None => None,
        }) == legacy_record(
            ParsedShapesView {
                current: Err(seq![]),
                flat: match flat {
                    Some(x) => Some(x@),
                    None => None,
                },
                organized: match organized {
                    Some(x) => Some(x@),
                    None => None,
                },
                common: match common {
                    Some(x) => Some(x@),
                    None => None,
                },
            },
        ),
{
    match flat {
        Some(legacy) => {
            let current = migrate_legacy_config(legacy);
            return Some(current.convert_to());
        },
        None => {},
    }
    match &organized {
        Some(o) => {
            if o.fe.is_some() || o.be.is_some() {
                return Some(from_organized_config(o));
            }
        },
        None => {},
    }
    match &common {
        Some(c) => Some(parse_legacy_config_with_mysql(c)),
        None => None,
    }
}

/// Loads the record from the stored file under the user's home directory. This
/// fails only where the user has no home directory; whatever the file holds,
/// there is a record to start with.
pub fn load_persisted_config(home: Option<&str>, file: StoredFile) -> (r: Result<
    LoadedConfig,
    CliError,
>)
    ensures
        match home {
            Some(h) => r is Ok && r->Ok_0@ == loaded(config_file_of(h@), file@),
            None => r is Err && r->Err_0@ == no_home(),
        },
{
    let paths = match get_config_file_paths(home) {
        Ok(p) => p,
        Err(e) => {
            return Err(e);
        },
    };
    assert(texts(paths@).len() == 1);
    assert(texts(paths@)[0] == paths@[0]@);
    let path = paths[0].as_str();
    match file {
        StoredFile::Absent => Ok(
            LoadedConfig { config: DorisConfig::default(), migrated: false, warning: None },
        ),
        StoredFile::Unreadable(reason) => {
            let head = concat3("Failed to read config file ", path, ": ");
            Ok(
                LoadedConfig {
                    config: DorisConfig::default(),
                    migrated: false,
                    warning: Some(concat(head.as_str(), reason.as_str())),
                },
            )
        },
        StoredFile::Read(shapes) => {
            let ghost seen = shapes@;
            match shapes.current {
                Ok(stored) => Ok(
                    LoadedConfig {
                        config: from_persistent_config(stored),
                        migrated: false,
                        warning: None,
                    },
                ),
                Err(complaint) => {
                    let older = if contains(complaint.as_str(), "missing field") {
                        legacy_config(shapes.flat, shapes.organized, shapes.common)
                    } else {
                        None
                    };
                    match older {
                        Some(config) => Ok(LoadedConfig { config, migrated: true, warning: None }),
                        None => {
                            let head = concat3("Failed to parse config file ", path, ": ");
                            Ok(
                                LoadedConfig {
                                    config: DorisConfig::default(),
                                    migrated: false,
                                    warning: Some(concat(head.as_str(), complaint.as_str())),
                                },
                            )
                        },
                    }
                },
            }
        },
    }
}

/// A stored record of an older layout, whichever of them it is, once brought into
/// the current layout and written, is read back as it was migrated, with its time
/// of detection as the date library reads what it wrote; a record of the oldest
/// layout, which holds no such time, is read back exactly.
pub proof fn lemma_round_trip_of_older_layouts(shapes: ParsedShapesView)
    requires
        legacy_record(shapes) is Some,
    ensures
        ({
            let rec = legacy_record(shapes)->0;
            &&& record_of_persistent(persistent_of(rec)) == (DorisRecord {
                last_detected: reread(rec.last_detected),
                ..rec
            })
            &&& shapes.flat is Some ==> record_of_persistent(persistent_of(rec)) == rec
        }),
{
    lemma_round_trip(legacy_record(shapes)->0);
    if shapes.flat is Some {
        lemma_round_trip_migrated(shapes.flat->0);
    }
}

/// A file that was written in the current layout is taken as it is when it is
/// loaded: it is not held against older layouts, and not rewritten.
pub proof fn lemma_current_layout_is_final(
    path: Seq<char>,
    rec: DorisRecord,
    flat: Option<LegacyConfigView>,
    organized: Option<OrganizedConfigView>,
    common: Option<LegacyConfigWithMySQLView>,
)
    ensures
        ({
            let again = loaded(
                path,
                StoredFileView::Read(
                    ParsedShapesView { current: Ok(persistent_of(rec)), flat, organized, common },
                ),
            );
            &&& !again.migrated
            &&& again.warning is None
            &&& again.record == (DorisRecord { last_detected: reread(rec.last_detected), ..rec })
        }),
{
    lemma_round_trip(rec);
}

} // verus!
