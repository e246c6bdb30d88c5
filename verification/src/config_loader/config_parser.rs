use crate::config_loader::regex_utils::{
    assignment_pattern, cleaned_opt, extract_key_value, extract_value_from_line, group_of,
    key_pattern, regex_captures,
};
use crate::config_loader::{default_record, DorisConfig, DorisRecord, Environment};
use crate::config_loader::process_detector::{
    default_install_dir, home_unknown, missing_file, paths_of, verify_config_file, get_paths,
};
use crate::error::{CliError, ErrorView};
use crate::text::{
    chars_of, concat, contains, has_prefix, has_substring, join_path, lines, lines_of, opt_str, opt_text,
    parse_u16, path_join, replace, replace_all, starts_with, texts, trim, trimmed, unsigned_of,
};
use vstd::prelude::*;

verus! {

/// A role's configuration file, as it was found on disk.
#[derive(Debug)]
pub enum ConfigFile {
    /// There is no such file.
    Missing,
    /// The file is there but could not be read; the text is the system's message.
    Unreadable(String),
    /// What the file holds.
    Content(String),
}

/// What a `ConfigFile` holds, as plain values.
pub enum ConfigFileView {
    Missing,
    Unreadable(Seq<char>),
    Content(Seq<char>),
}

impl View for ConfigFile {
    type V = ConfigFileView;

    open spec fn view(&self) -> ConfigFileView {
        match self {
            ConfigFile::Missing => ConfigFileView::Missing,
            ConfigFile::Unreadable(e) => ConfigFileView::Unreadable(e@),
            ConfigFile::Content(c) => ConfigFileView::Content(c@),
        }
    }
}

/// The value that a line gives to `key`, where it assigns to it.
pub open spec fn value_in_line(line: Seq<char>, key: Seq<char>) -> Option<Seq<char>> {
    cleaned_opt(group_of(regex_captures(key_pattern(key), line), 1))
}

/// The port number that a text writes: a number from 1 to 65535. Zero is no port
/// to reach anything at, so a text that writes it leaves the port as unknown as a
/// text that writes no number.
pub open spec fn port_of(t: Seq<char>) -> Option<u16> {
    match unsigned_of(t, 0xFFFF) {
        Some(n) => if n == 0 {
            None
        } else {
            Some(n as u16)
        },
        None => None,
    }
}

/// The port that a line gives to `key`: absent where the line does not assign to
/// `key`, and where what it assigns is no port number.
pub open spec fn port_in_line(line: Seq<char>, key: Seq<char>) -> Option<u16> {
    match value_in_line(line, key) {
        Some(t) => port_of(t),
        None => None,
    }
}

/// A field after a line was read: the line's value where it gives one, else what
/// the field held.
pub open spec fn merged<T>(held: Option<T>, found: Option<T>) -> Option<T> {
    if found is Some {
        found
    } else {
        held
    }
}

/// The token that stands for the install directory in a configured path.
pub open spec fn home_token() -> Seq<char> {
    "${DORIS_HOME}"@
}

/// The log directory that a line sets: the value of a line that begins with
/// `LOG_DIR`, with the install directory put in place of its token where the
/// directory is known.
pub open spec fn log_dir_in_line(line: Seq<char>, install_dir: Option<Seq<char>>) -> Option<
    Seq<char>,
> {
    if has_prefix(line, "LOG_DIR"@) {
        match cleaned_opt(group_of(regex_captures(assignment_pattern(), line), 1)) {
            Some(v) => match install_dir {
                Some(home) => if has_substring(v, home_token()) {
                    Some(replace_all(v, home_token(), home))
                } else {
                    Some(v)
                },
                None => Some(v),
            },
            None => None,
        }
    } else {
        None
    }
}

/// Whether a trimmed line says nothing: it is empty or a comment.
pub open spec fn is_skipped(line: Seq<char>) -> bool {
    line.len() == 0 || line[0] == '#'
}

/// The record after one line of a role's configuration file was read.
pub open spec fn line_applied(
    rec: DorisRecord,
    env: Environment,
    raw: Seq<char>,
    install_dir: Option<Seq<char>>,
) -> DorisRecord {
    let line = trimmed(raw);
    if is_skipped(line) {
        rec
    } else {
        let with_log = DorisRecord {
            log_dir: match log_dir_in_line(line, install_dir) {
                Some(d) => d,
                None => rec.log_dir,
            },
            ..rec
        };
        let with_role = match env {
            Environment::BE => DorisRecord {
                be_port: merged(with_log.be_port, port_in_line(line, "be_port"@)),
                brpc_port: merged(with_log.brpc_port, port_in_line(line, "brpc_port"@)),
                heartbeat_service_port: merged(
                    with_log.heartbeat_service_port,
                    port_in_line(line, "heartbeat_service_port"@),
                ),
                webserver_port: merged(
                    with_log.webserver_port,
                    port_in_line(line, "webserver_port"@),
                ),
                ..with_log
            },
            Environment::FE => DorisRecord {
                http_port: merged(with_log.http_port, port_in_line(line, "http_port"@)),
                rpc_port: merged(with_log.rpc_port, port_in_line(line, "rpc_port"@)),
                query_port: merged(with_log.query_port, port_in_line(line, "query_port"@)),
                edit_log_port: merged(
                    with_log.edit_log_port,
                    port_in_line(line, "edit_log_port"@),
                ),
                cloud_http_port: merged(
                    with_log.cloud_http_port,
                    port_in_line(line, "cloud_http_port"@),
                ),
                meta_dir: merged(with_log.meta_dir, value_in_line(line, "meta_dir"@)),
                ..with_log
            },
            _ => with_log,
        };
        DorisRecord {
            priority_networks: merged(
                with_role.priority_networks,
                value_in_line(line, "priority_networks"@),
            ),
            meta_service_endpoint: merged(
                with_role.meta_service_endpoint,
                value_in_line(line, "meta_service_endpoint"@),
            ),
            ..with_role
        }
    }
}

/// The record after the lines of a role's configuration file were read in order.
pub open spec fn content_applied(
    rec: DorisRecord,
    env: Environment,
    all: Seq<Seq<char>>,
    install_dir: Option<Seq<char>>,
) -> DorisRecord
    decreases all.len(),
{
    if all.len() == 0 {
        rec
    } else {
        content_applied(
            line_applied(rec, env, all[0], install_dir),
            env,
            all.drop_first(),
            install_dir,
        )
    }
}

/// The right-hand side of an assignment line, whatever its key.
pub fn extract_value(line: &str) -> (r: Option<String>)
    ensures
        opt_text(r) == cleaned_opt(group_of(regex_captures(assignment_pattern(), line@), 1)),
{
    extract_value_from_line(line)
}

/// The port number that a value writes, if it writes one.
pub fn port_from_value(value: &Option<String>) -> (r: Option<u16>)
    ensures
        r == match opt_text(*value) {
            Some(t) => port_of(t),
            None => None,
        },
        r != Some(0u16),
{
    match value {
        Some(t) => match parse_u16(t.as_str()) {
            Some(n) => if n == 0 {
                None
            } else {
                Some(n)
            },
            None => None,
        },
        None => None,
    }
}

/// Reads the port that `line` gives to `key` into `value`. A line that does not
/// assign to `key`, or assigns no port number, leaves `value` as it was.
pub fn parse_key_value(line: &str, key: &str, value: &mut Option<u16>)
    ensures
        *final(value) == merged(*old(value), port_in_line(line@, key@)),
{
    let found = extract_key_value(line, key);
    let port = port_from_value(&found);
    if port.is_some() {
        *value = port;
    }
}

/// Reads the text that `line` gives to `key` into `value`.
pub fn parse_text_key_value(line: &str, key: &str, value: &mut Option<String>)
    ensures
        opt_text(*final(value)) == merged(opt_text(*old(value)), value_in_line(line@, key@)),
{
    let found = extract_key_value(line, key);
    if found.is_some() {
        *value = found;
    }
}

/// Reads the path that `line` gives to `key` into `value`.
pub fn parse_path_key_value(line: &str, key: &str, value: &mut Option<String>)
    ensures
        opt_text(*final(value)) == merged(opt_text(*old(value)), value_in_line(line@, key@)),
{
    parse_text_key_value(line, key, value)
}

/// Reads one line of a role's configuration file into the record.
pub fn parse_config_line(
    env: Environment,
    raw: &str,
    config: &mut DorisConfig,
    install_dir: Option<&str>,
)
    ensures
        final(config)@ == line_applied(old(config)@, env, raw@, opt_str(install_dir)),
{
    let line_owned = trim(raw);
    let line = line_owned.as_str();
    let v = chars_of(line);
    if v.len() == 0 || v[0] == '#' {
        return ;
    }
    if starts_with(line, "LOG_DIR") {
        match extract_value(line) {
            Some(log_dir) => {
                match install_dir {
                    Some(home) => {
                        if contains(log_dir.as_str(), "${DORIS_HOME}") {
                            proof {
                                reveal_strlit("${DORIS_HOME}");
                            }
                            config.log_dir = replace(log_dir.as_str(), "${DORIS_HOME}", home);
                        } else {
                            config.log_dir = log_dir;
                        }
                    },
                    None => {
                        config.log_dir = log_dir;
                    },
                }
            },
            None => {},
        }
    }
    match env {
        Environment::BE => {
            parse_key_value(line, "be_port", &mut config.be_port);
            parse_key_value(line, "brpc_port", &mut config.brpc_port);
            parse_key_value(line, "heartbeat_service_port", &mut config.heartbeat_service_port);
            parse_key_value(line, "webserver_port", &mut config.webserver_port);
        },
        Environment::FE => {
            parse_key_value(line, "http_port", &mut config.http_port);
            parse_key_value(line, "rpc_port", &mut config.rpc_port);
            parse_key_value(line, "query_port", &mut config.query_port);
            parse_key_value(line, "edit_log_port", &mut config.edit_log_port);
            parse_key_value(line, "cloud_http_port", &mut config.cloud_http_port);
            parse_path_key_value(line, "meta_dir", &mut config.meta_dir);
        },
        _ => {},
    }
    parse_text_key_value(line, "priority_networks", &mut config.priority_networks);
    parse_text_key_value(line, "meta_service_endpoint", &mut config.meta_service_endpoint);
}

/// Reads a role's configuration file into the record, line by line. Empty lines
/// and comments say nothing; a line with a value that cannot be used is passed
/// over, and the lines after it still count.
pub fn parse_config_content(
    env: Environment,
    content: &str,
    config: &mut DorisConfig,
    install_dir: Option<&str>,
)
    ensures
        final(config)@ == content_applied(
            old(config)@,
            env,
            lines_of(content@),
            opt_str(install_dir),
        ),
{
    let all = lines(content);
    let mut i: usize = 0;
    assert(texts(all@).skip(0) == texts(all@));
    while i < all.len()
        invariant
            i <= all.len(),
            texts(all@) == lines_of(content@),
            content_applied(old(config)@, env, texts(all@), opt_str(install_dir))
                == content_applied(config@, env, texts(all@).skip(i as int), opt_str(install_dir)),
        decreases all.len() - i,
    {
        assert(texts(all@).skip(i as int)[0] == all@[i as int]@);
        assert(texts(all@).skip(i as int).drop_first() == texts(all@).skip(i + 1));
        parse_config_line(env, all[i].as_str(), config, install_dir);
        i += 1;
    }
}

/// The name of a role's configuration file; only the two single roles have one.
pub open spec fn config_file_name(env: Environment) -> Option<Seq<char>> {
    match env {
        Environment::BE => Some("be.conf"@),
        Environment::FE => Some("fe.conf"@),
        _ => None,
    }
}

/// The path of a role's configuration file under an install directory.
pub open spec fn config_file_path(env: Environment, install_dir: Seq<char>) -> Option<Seq<char>> {
    match config_file_name(env) {
        Some(name) => Some(path_join(path_join(install_dir, "conf"@), name)),
        None => None,
    }
}

/// The path of a role's configuration file under an install directory.
pub fn config_path(env: Environment, install_dir: &str) -> (r: Option<String>)
    ensures
        opt_text(r) == config_file_path(env, install_dir@),
{
    let conf_dir = join_path(install_dir, "conf");
    match env {
        Environment::BE => Some(join_path(conf_dir.as_str(), "be.conf")),
        Environment::FE => Some(join_path(conf_dir.as_str(), "fe.conf")),
        _ => None,
    }
}

/// The record that parsing starts from: nothing known but the role, where it is
/// installed, and its JDK.
pub open spec fn fresh_record(env: Environment, install_dir: Seq<char>, jdk_path: Seq<char>)
    -> DorisRecord {
    DorisRecord {
        environment: env,
        install_dir,
        conf_dir: path_join(install_dir, "conf"@),
        jdk_path,
        ..default_record()
    }
}

/// What is said of a configuration file that cannot be read.
pub open spec fn unreadable_file(env: Environment, reason: Seq<char>) -> ErrorView {
    match env {
        Environment::BE => ErrorView::ConfigError("Failed to read BE config file: "@ + reason),
        _ => ErrorView::ConfigError("Failed to read FE config file: "@ + reason),
    }
}

/// What parsing a role's configuration file gives. Only the two single roles can
/// be parsed; a missing file and an unreadable one are told apart; whatever else
/// the file holds, parsing succeeds, with the fields that its lines set.
pub open spec fn parsed_config(
    env: Environment,
    install_dir: Seq<char>,
    jdk_path: Seq<char>,
    file: ConfigFileView,
) -> Result<DorisRecord, ErrorView> {
    match config_file_path(env, install_dir) {
        None => Err(ErrorView::ConfigError("Invalid environment"@)),
        Some(path) => match file {
            ConfigFileView::Missing => Err(missing_file(path)),
            ConfigFileView::Unreadable(reason) => Err(unreadable_file(env, reason)),
            ConfigFileView::Content(c) => Ok(
                content_applied(
                    fresh_record(env, install_dir, jdk_path),
                    env,
                    lines_of(c),
                    Some(install_dir),
                ),
            ),
        },
    }
}

/// What a parse result holds, as plain values.
pub open spec fn config_result(r: Result<DorisConfig, CliError>) -> Result<
    DorisRecord,
    ErrorView,
> {
    match r {
        Ok(c) => Ok(c@),
        Err(e) => Err(e@),
    }
}

/// Parses a role's configuration file, as it was found under `install_dir`.
pub fn parse_config_internal(
    env: Environment,
    install_dir: &str,
    jdk_path: &str,
    file: &ConfigFile,
) -> (r: Result<DorisConfig, CliError>)
    ensures
        config_result(r) == parsed_config(env, install_dir@, jdk_path@, file@),
{
    let conf_path = match config_path(env, install_dir) {
        Some(p) => p,
        None => {
            return Err(CliError::ConfigError("Invalid environment".to_owned()));
        },
    };
    let content = match file {
        ConfigFile::Missing => {
            return match verify_config_file(conf_path.as_str(), false) {
                Err(e) => Err(e),
                Ok(_) => Err(CliError::ConfigError("Invalid environment".to_owned())),
            };
        },
        ConfigFile::Unreadable(reason) => {
            let msg = match env {
                Environment::BE => concat("Failed to read BE config file: ", reason.as_str()),
                _ => concat("Failed to read FE config file: ", reason.as_str()),
            };
            return Err(CliError::ConfigError(msg));
        },
        ConfigFile::Content(c) => c,
    };
    let mut config = DorisConfig::default();
    config.environment = env;
    config.install_dir = install_dir.to_owned();
    config.conf_dir = join_path(install_dir, "conf");
    config.jdk_path = jdk_path.to_owned();
    parse_config_content(env, content.as_str(), &mut config, Some(install_dir));
    Ok(config)
}

/// Parses a role's configuration file under `install_dir`, with the assumed JDK.
pub fn parse_config_from_path(env: Environment, install_dir: &str, file: &ConfigFile) -> (r:
    Result<DorisConfig, CliError>)
    ensures
        config_result(r) == parsed_config(env, install_dir@, "/opt/jdk"@, file@),
{
    parse_config_internal(env, install_dir, "/opt/jdk", file)
}

/// What parsing the configuration of the running instance of a role gives, from
/// where the instance says it is installed.
pub open spec fn parsed_running(
    env: Environment,
    pid: Result<u32, CliError>,
    environ: Option<Seq<char>>,
    command: Seq<char>,
    file: ConfigFileView,
) -> Result<DorisRecord, ErrorView> {
    match pid {
        Ok(p) => {
            let found = paths_of(environ, command, env);
            if found.0 == default_install_dir() {
                Err(home_unknown(env))
            } else {
                parsed_config(env, found.0, found.1, file)
            }
        },
        Err(e) => Err(e@),
    }
}

/// Parses the configuration of the running storage role.
pub fn parse_be_config(
    pid: Result<u32, CliError>,
    environ: Option<&str>,
    command: &str,
    file: &ConfigFile,
) -> (r: Result<DorisConfig, CliError>)
    ensures
        config_result(r) == parsed_running(Environment::BE, pid, opt_str(environ), command@, file@),
{
    match get_paths(Environment::BE, pid, environ, command) {
        Ok((install_dir, jdk_path)) => parse_config_internal(
            Environment::BE,
            install_dir.as_str(),
            jdk_path.as_str(),
            file,
        ),
        Err(e) => Err(e),
    }
}

/// Parses the configuration of the running coordination role.
pub fn parse_fe_config(
    pid: Result<u32, CliError>,
    environ: Option<&str>,
    command: &str,
    file: &ConfigFile,
) -> (r: Result<DorisConfig, CliError>)
    ensures
        config_result(r) == parsed_running(Environment::FE, pid, opt_str(environ), command@, file@),
{
    match get_paths(Environment::FE, pid, environ, command) {
        Ok((install_dir, jdk_path)) => parse_config_internal(
            Environment::FE,
            install_dir.as_str(),
            jdk_path.as_str(),
            file,
        ),
        Err(e) => Err(e),
    }
}

/// A line that is a comment sets nothing.
pub proof fn lemma_comment_sets_nothing(
    rec: DorisRecord,
    env: Environment,
    raw: Seq<char>,
    install_dir: Option<Seq<char>>,
)
    requires
        trimmed(raw).len() > 0,
        trimmed(raw)[0] == '#',
    ensures
        line_applied(rec, env, raw, install_dir) == rec,
{
}

/// The port that the lines of a file leave in a field that held `held`: the
/// value of the last line that gives the key a port number, and `held` where no
/// line does. Empty lines and comments give nothing.
pub open spec fn port_after(held: Option<u16>, all: Seq<Seq<char>>, key: Seq<char>) -> Option<u16>
    decreases all.len(),
{
    if all.len() == 0 {
        held
    } else {
        let line = trimmed(all.last());
        let found = if is_skipped(line) {
            None
        } else {
            port_in_line(line, key)
        };
        match found {
            Some(p) => Some(p),
            None => port_after(held, all.drop_last(), key),
        }
    }
}

/// Whether some line of a file gives `key` a port number.
pub open spec fn assigns_port(all: Seq<Seq<char>>, key: Seq<char>) -> bool {
    exists|i: int|
        0 <= i < all.len() && !is_skipped(trimmed(#[trigger] all[i])) && port_in_line(
            trimmed(all[i]),
            key,
        ) is Some
}

/// A port field that no line assigns stays as it was, and one that a line assigns
/// is set.
pub proof fn lemma_port_after(held: Option<u16>, all: Seq<Seq<char>>, key: Seq<char>)
    ensures
        !assigns_port(all, key) ==> port_after(held, all, key) == held,
        assigns_port(all, key) ==> port_after(held, all, key) is Some,
    decreases all.len(),
{
    if all.len() > 0 {
        let rest = all.drop_last();
        lemma_port_after(held, rest, key);
        if assigns_port(all, key) {
            let i = choose|i: int|
                0 <= i < all.len() && !is_skipped(trimmed(#[trigger] all[i])) && port_in_line(
                    trimmed(all[i]),
                    key,
                ) is Some;
            if i < all.len() - 1 {
                assert(rest[i] == all[i]);
                assert(assigns_port(rest, key));
            }
        } else {
            if assigns_port(rest, key) {
                let i = choose|i: int|
                    0 <= i < rest.len() && !is_skipped(trimmed(#[trigger] rest[i]))
                        && port_in_line(trimmed(rest[i]), key) is Some;
                assert(all[i] == rest[i]);
                assert(false);
            }
            assert(all[all.len() - 1] == all.last());
        }
    }
}

/// Reading a file never makes a port zero: a port field is zero after the file
/// was read only where it was so before. A fresh record, whose ports are all
/// absent, thus never comes to hold a zero.
pub proof fn lemma_no_port_made_zero(held: Option<u16>, all: Seq<Seq<char>>, key: Seq<char>)
    ensures
        port_after(held, all, key) == Some(0u16) ==> held == Some(0u16),
    decreases all.len(),
{
    if all.len() > 0 {
        lemma_no_port_made_zero(held, all.drop_last(), key);
    }
}

/// The port fields that reading a file leaves in a record.
pub open spec fn ports_after(rec: DorisRecord, env: Environment, all: Seq<Seq<char>>)
    -> DorisRecord {
    match env {
        Environment::BE => DorisRecord {
            be_port: port_after(rec.be_port, all, "be_port"@),
            brpc_port: port_after(rec.brpc_port, all, "brpc_port"@),
            heartbeat_service_port: port_after(
                rec.heartbeat_service_port,
                all,
                "heartbeat_service_port"@,
            ),
            webserver_port: port_after(rec.webserver_port, all, "webserver_port"@),
            ..rec
        },
        Environment::FE => DorisRecord {
            http_port: port_after(rec.http_port, all, "http_port"@),
            rpc_port: port_after(rec.rpc_port, all, "rpc_port"@),
            query_port: port_after(rec.query_port, all, "query_port"@),
            edit_log_port: port_after(rec.edit_log_port, all, "edit_log_port"@),
            cloud_http_port: port_after(rec.cloud_http_port, all, "cloud_http_port"@),
            ..rec
        },
        _ => rec,
    }
}

/// Whether two records hold the same ports.
pub open spec fn same_ports(a: DorisRecord, b: DorisRecord) -> bool {
    &&& a.be_port == b.be_port
    &&& a.brpc_port == b.brpc_port
    &&& a.heartbeat_service_port == b.heartbeat_service_port
    &&& a.webserver_port == b.webserver_port
    &&& a.http_port == b.http_port
    &&& a.rpc_port == b.rpc_port
    &&& a.query_port == b.query_port
    &&& a.edit_log_port == b.edit_log_port
    &&& a.cloud_http_port == b.cloud_http_port
}

/// Reading a file sets each port of the role to what the last line that assigns
/// it says, and leaves every other port as it was: a port that the file does not
/// name is never made up.
pub proof fn lemma_ports_of_content(
    rec: DorisRecord,
    env: Environment,
    all: Seq<Seq<char>>,
    install_dir: Option<Seq<char>>,
)
    ensures
        same_ports(content_applied(rec, env, all, install_dir), ports_after(rec, env, all)),
    decreases all.len(),
{
    if all.len() > 0 {
        let first = line_applied(rec, env, all[0], install_dir);
        let rest = all.drop_first();
        lemma_ports_of_content(first, env, rest, install_dir);
        lemma_ports_after_first(rec, env, all, install_dir);
    }
}

/// Reading the first line and then the rest leaves the ports that reading all
/// lines leaves.
proof fn lemma_port_after_first(held: Option<u16>, all: Seq<Seq<char>>, key: Seq<char>)
    requires
        all.len() > 0,
    ensures
        port_after(held, all, key) == port_after(
            port_after(held, seq![all[0]], key),
            all.drop_first(),
            key,
        ),
    decreases all.len(),
{
    let one = seq![all[0]];
    assert(one.drop_last() =~= Seq::<Seq<char>>::empty());
    assert(one.last() == all[0]);
    if all.len() == 1 {
        assert(all.drop_first() =~= Seq::<Seq<char>>::empty());
        assert(all =~= one);
    } else {
        let rest = all.drop_first();
        assert(rest.last() == all.last());
        assert(all.drop_last().drop_first() =~= rest.drop_last());
        assert(all.drop_last()[0] == all[0]);
        lemma_port_after_first(held, all.drop_last(), key);
    }
}

/// A single line leaves in a port field what the line gives it, or what it held.
proof fn lemma_port_after_one(held: Option<u16>, raw: Seq<char>, key: Seq<char>)
    ensures
        port_after(held, seq![raw], key) == if is_skipped(trimmed(raw)) {
            held
        } else {
            merged(held, port_in_line(trimmed(raw), key))
        },
{
    let one = seq![raw];
    assert(one.drop_last() =~= Seq::<Seq<char>>::empty());
    assert(one.last() == raw);
    reveal_with_fuel(port_after, 2);
}

/// The ports after the first line, for every port of the role at once.
proof fn lemma_ports_after_first(
    rec: DorisRecord,
    env: Environment,
    all: Seq<Seq<char>>,
    install_dir: Option<Seq<char>>,
)
    requires
        all.len() > 0,
    ensures
        same_ports(
            ports_after(line_applied(rec, env, all[0], install_dir), env, all.drop_first()),
            ports_after(rec, env, all),
        ),
{
    lemma_port_after_first(rec.be_port, all, "be_port"@);
    lemma_port_after_first(rec.brpc_port, all, "brpc_port"@);
    lemma_port_after_first(rec.heartbeat_service_port, all, "heartbeat_service_port"@);
    lemma_port_after_first(rec.webserver_port, all, "webserver_port"@);
    lemma_port_after_first(rec.http_port, all, "http_port"@);
    lemma_port_after_first(rec.rpc_port, all, "rpc_port"@);
    lemma_port_after_first(rec.query_port, all, "query_port"@);
    lemma_port_after_first(rec.edit_log_port, all, "edit_log_port"@);
    lemma_port_after_first(rec.cloud_http_port, all, "cloud_http_port"@);
    lemma_port_after_one(rec.be_port, all[0], "be_port"@);
    lemma_port_after_one(rec.brpc_port, all[0], "brpc_port"@);
    lemma_port_after_one(rec.heartbeat_service_port, all[0], "heartbeat_service_port"@);
    lemma_port_after_one(rec.webserver_port, all[0], "webserver_port"@);
    lemma_port_after_one(rec.http_port, all[0], "http_port"@);
    lemma_port_after_one(rec.rpc_port, all[0], "rpc_port"@);
    lemma_port_after_one(rec.query_port, all[0], "query_port"@);
    lemma_port_after_one(rec.edit_log_port, all[0], "edit_log_port"@);
    lemma_port_after_one(rec.cloud_http_port, all[0], "cloud_http_port"@);
}

} // verus!
