use crate::config_loader::process_detector::{get_pid_by_env, located, pid_result};
use crate::config_loader::regex_utils::opt_texts;
use crate::config_loader::{DorisConfig, Environment};
use crate::error::{text_of, CliError, ErrorView};
use crate::text::{
    chars_of, concat, concat3, contains, decimal_text, has_substring, in_order, lines, lines_of,
    opt_str, parse_u16, sort_texts, texts, trim, trimmed, u64_to_string, unsigned_of,
};
use crate::tools::fe::table_info::{databases_of, FeTableInfoTool};
use crate::tools::mysql::cluster::{backends_of, frontends_of, ClusterInfo, ClusterInfoView};
use crate::tools::mysql::parser::{blocks_of, parse_backends, parse_frontends};
use vstd::prelude::*;

verus! {

/// Asks the database through its command-line client.
#[derive(Debug, Clone, Copy, PartialEq, Eq, Structural)]
pub struct MySQLTool;

/// How the database client writes its output.
#[derive(Debug, Clone, Copy, PartialEq, Eq, Structural)]
pub enum OutputMode {
    /// As the client writes it for a reader.
    Standard,
    /// Rows on lines, cells between tabs, no header.
    Raw,
}

/// The switches that set the output mode of the database client.
pub open spec fn mode_switches(mode: OutputMode) -> Seq<Seq<char>> {
    match mode {
        OutputMode::Standard => seq!["-A"@],
        OutputMode::Raw => seq!["-N"@, "-B"@, "-r"@, "-A"@],
    }
}

/// The arguments of the database client for a query: host, port and user, the
/// password where there is one, the switches of the output mode, and the query.
pub open spec fn client_arguments(
    host: Seq<char>,
    port: u16,
    user: Seq<char>,
    password: Seq<char>,
    query: Seq<char>,
    mode: OutputMode,
) -> Seq<Seq<char>> {
    seq!["-h"@, host, "-P"@, decimal_text(port as nat), "-u"@, user] + (if password.len() > 0 {
        seq!["-p"@ + password]
    } else {
        seq![]
    }) + mode_switches(mode) + seq!["-e"@, query]
}

/// What is wrong with a query that the database client could not answer, from
/// what the client wrote to its standard error.
pub open spec fn query_fault(stderr: Seq<char>, host: Seq<char>, port: u16) -> ErrorView {
    if has_substring(stderr, "Access denied for user"@) || has_substring(stderr, "ERROR 1045"@) {
        ErrorView::MySQLAccessDenied("Access denied. Please update MySQL credentials."@)
    } else if has_substring(stderr, "Unknown database"@) || has_substring(stderr, "ERROR 1049"@) {
        ErrorView::ToolExecutionFailed("Unknown database. Please verify the database name."@)
    } else if has_substring(stderr, "Can't connect"@) || has_substring(
        stderr,
        "Connection refused"@,
    ) || has_substring(stderr, "ERROR 2003"@) {
        ErrorView::ToolExecutionFailed(
            "Cannot connect to MySQL at "@ + host + ":"@ + decimal_text(port as nat)
                + ". Check host/port and service status."@,
        )
    } else {
        ErrorView::ToolExecutionFailed("MySQL query failed. Please try again."@)
    }
}

/// Where the database is asked: at the address of the environment where that
/// names a host and a port; else at the query port of the record on this host;
/// else at the usual port on this host.
pub open spec fn connection_of(
    env_host: Option<Seq<char>>,
    env_port: Option<Seq<char>>,
    query_port: Option<u16>,
) -> (Seq<char>, u16) {
    let named = match (env_host, env_port) {
        (Some(h), Some(p)) => match unsigned_of(p, 0xFFFF) {
            Some(n) => Some((h, n as u16)),
            None => None,
        },
        _ => None,
    };
    match named {
        Some(pair) => pair,
        None => match query_port {
            Some(p) => ("127.0.0.1"@, p),
            None => ("127.0.0.1"@, 9030u16),
        },
    }
}

/// What is known of the cluster, from the answers to the two queries for its
/// nodes.
pub open spec fn cluster_of(
    frontends: Result<Seq<char>, ErrorView>,
    backends: Result<Seq<char>, ErrorView>,
) -> Result<ClusterInfoView, ErrorView> {
    match frontends {
        Err(e) => Err(ErrorView::ConfigError("Failed to query frontends: "@ + text_of(e))),
        Ok(f) => match backends {
            Err(e) => Err(ErrorView::ConfigError("Failed to query backends: "@ + text_of(e))),
            Ok(b) => Ok(
                ClusterInfoView {
                    frontends: frontends_of(blocks_of(f)),
                    backends: backends_of(blocks_of(b)),
                },
            ),
        },
    }
}

/// What an answer holds, as plain values.
pub open spec fn answer_view(r: Result<String, CliError>) -> Result<Seq<char>, ErrorView> {
    match r {
        Ok(t) => Ok(t@),
        Err(e) => Err(e@),
    }
}

/// The tables that the lines of a list name, in order: each line without the
/// white space around it, but for empty lines.
pub open spec fn names_of(all: Seq<Seq<char>>) -> Seq<Seq<char>>
    decreases all.len(),
{
    if all.len() == 0 {
        seq![]
    } else {
        let name = trimmed(all.last());
        if name.len() == 0 {
            names_of(all.drop_last())
        } else {
            names_of(all.drop_last()).push(name)
        }
    }
}

impl MySQLTool {
    /// The process of the coordination role on this host.
    pub fn detect_fe_process(outputs: &Vec<Option<String>>, user: &str) -> (r: Result<
        u32,
        CliError,
    >)
        ensures
            pid_result(r) == located(Environment::FE, opt_texts(outputs@), user@),
    {
        get_pid_by_env(Environment::FE, outputs, user)
    }

    /// What is known of the cluster, from the answers to `SHOW FRONTENDS \G` and
    /// `SHOW BACKENDS \G`.
    pub fn query_cluster_info(
        &self,
        frontends_output: Result<String, CliError>,
        backends_output: Result<String, CliError>,
    ) -> (r: Result<ClusterInfo, CliError>)
        ensures
            match r {
                Ok(c) => cluster_of(answer_view(frontends_output), answer_view(backends_output))
                    == Ok::<_, ErrorView>(c@),
                Err(e) => cluster_of(answer_view(frontends_output), answer_view(backends_output))
                    == Err::<ClusterInfoView, _>(e@),
            },
    {
        let frontends = match frontends_output {
            Ok(text) => parse_frontends(text.as_str()),
            Err(e) => {
                let said = e.message();
                return Err(
                    CliError::ConfigError(concat("Failed to query frontends: ", said.as_str())),
                );
            },
        };
        let backends = match backends_output {
            Ok(text) => parse_backends(text.as_str()),
            Err(e) => {
                let said = e.message();
                return Err(
                    CliError::ConfigError(concat("Failed to query backends: ", said.as_str())),
                );
            },
        };
        Ok(ClusterInfo { frontends, backends })
    }

    /// The arguments of the database client for a query whose answer is for a
    /// reader. It is a failure where the record holds no credentials.
    pub fn query_sql_with_config(
        config: &DorisConfig,
        host: &str,
        port: u16,
        password: &str,
        query: &str,
    ) -> (r: Result<Vec<String>, CliError>)
        ensures
            match config@.mysql {
                Some(m) => r is Ok && texts(r->Ok_0@) == client_arguments(
                    host@,
                    port,
                    m.user,
                    password@,
                    query@,
                    OutputMode::Standard,
                ),
                None => r is Err && r->Err_0@ == ErrorView::ConfigError(
                    "MySQL credentials not found in config"@,
                ),
            },
    {
        MySQLTool::execute_query_with_config(config, host, port, password, query, OutputMode::Standard)
    }

    /// The arguments of the database client for a query whose answer is raw.
    pub fn query_sql_raw_with_config(
        config: &DorisConfig,
        host: &str,
        port: u16,
        password: &str,
        query: &str,
    ) -> (r: Result<Vec<String>, CliError>)
        ensures
            match config@.mysql {
                Some(m) => r is Ok && texts(r->Ok_0@) == client_arguments(
                    host@,
                    port,
                    m.user,
                    password@,
                    query@,
                    OutputMode::Raw,
                ),
                None => r is Err && r->Err_0@ == ErrorView::ConfigError(
                    "MySQL credentials not found in config"@,
                ),
            },
    {
        MySQLTool::execute_query_with_config(config, host, port, password, query, OutputMode::Raw)
    }

    /// The arguments of the database client for a query; `password` is the
    /// password of the record's credentials in the clear.
    pub fn execute_query_with_config(
        config: &DorisConfig,
        host: &str,
        port: u16,
        password: &str,
        query: &str,
        mode: OutputMode,
    ) -> (r: Result<Vec<String>, CliError>)
        ensures
            match config@.mysql {
                Some(m) => r is Ok && texts(r->Ok_0@) == client_arguments(
                    host@,
                    port,
                    m.user,
                    password@,
                    query@,
                    mode,
                ),
                None => r is Err && r->Err_0@ == ErrorView::ConfigError(
                    "MySQL credentials not found in config"@,
                ),
            },
    {
        match &config.mysql {
            Some(m) => Ok(
                MySQLTool::run_mysql_command(host, port, m.user.as_str(), password, query, mode),
            ),
            None => Err(
                CliError::ConfigError("MySQL credentials not found in config".to_owned()),
            ),
        }
    }

    /// The arguments of the database client for a query.
    pub fn run_mysql_command(
        host: &str,
        port: u16,
        user: &str,
        password: &str,
        query: &str,
        mode: OutputMode,
    ) -> (r: Vec<String>)
        ensures
            texts(r@) == client_arguments(host@, port, user@, password@, query@, mode),
    {
        let mut args: Vec<String> = Vec::new();
        args.push("-h".to_owned());
        args.push(host.to_owned());
        args.push("-P".to_owned());
        args.push(u64_to_string(port as u64));
        args.push("-u".to_owned());
        args.push(user.to_owned());
        if chars_of(password).len() > 0 {
            args.push(concat("-p", password));
        }
        match mode {
            OutputMode::Standard => {
                args.push("-A".to_owned());
            },
            OutputMode::Raw => {
                args.push("-N".to_owned());
                args.push("-B".to_owned());
                args.push("-r".to_owned());
                args.push("-A".to_owned());
            },
        }
        args.push("-e".to_owned());
        args.push(query.to_owned());
        assert(texts(args@) =~= client_arguments(host@, port, user@, password@, query@, mode));
        args
    }

    /// What is wrong with a query that the database client could not answer.
    pub fn query_failure(stderr: &str, host: &str, port: u16) -> (r: CliError)
        ensures
            r@ == query_fault(stderr@, host@, port),
    {
        if contains(stderr, "Access denied for user") || contains(stderr, "ERROR 1045") {
            CliError::MySQLAccessDenied(
                "Access denied. Please update MySQL credentials.".to_owned(),
            )
        } else if contains(stderr, "Unknown database") || contains(stderr, "ERROR 1049") {
            CliError::ToolExecutionFailed(
                "Unknown database. Please verify the database name.".to_owned(),
            )
        } else if contains(stderr, "Can't connect") || contains(stderr, "Connection refused")
            || contains(stderr, "ERROR 2003") {
            let n = u64_to_string(port as u64);
            let head = concat3("Cannot connect to MySQL at ", host, ":");
            CliError::ToolExecutionFailed(
                concat3(head.as_str(), n.as_str(), ". Check host/port and service status."),
            )
        } else {
            CliError::ToolExecutionFailed("MySQL query failed. Please try again.".to_owned())
        }
    }

    /// The databases that the answer to `SHOW DATABASES;` names, in the order of
    /// their names, without those of the system.
    pub fn list_databases(output: &str) -> (r: Vec<String>)
        ensures
            in_order(texts(r@)),
            texts(r@).to_multiset() == databases_of(lines_of(output@)).to_multiset(),
    {
        FeTableInfoTool::list_databases(output)
    }

    /// The query that lists the tables of a database.
    pub fn list_tables_query(database: &str) -> (r: String)
        ensures
            r@ == "USE `"@ + database@ + "`; SHOW TABLES;"@,
    {
        concat3("USE `", database, "`; SHOW TABLES;")
    }

    /// The tables that the answer to the query for the tables of a database
    /// names, in the order of their names.
    pub fn list_tables(output: &str) -> (r: Vec<String>)
        ensures
            in_order(texts(r@)),
            texts(r@).to_multiset() == names_of(lines_of(output@)).to_multiset(),
    {
        let all = lines(output);
        let mut out: Vec<String> = Vec::new();
        let ghost rows = texts(all@);
        let mut i: usize = 0;
        assert(rows.take(0) =~= Seq::<Seq<char>>::empty());
        assert(texts(out@) =~= seq![]);
        while i < all.len()
            invariant
                i <= all.len(),
                rows == texts(all@),
                texts(out@) == names_of(rows.take(i as int)),
            decreases all.len() - i,
        {
            let ghost next = rows.take(i + 1);
            assert(next.drop_last() == rows.take(i as int));
            assert(next.last() == all@[i as int]@);
            let name = trim(all[i].as_str());
            if chars_of(name.as_str()).len() > 0 {
                let ghost before = texts(out@);
                let ghost added = name@;
                out.push(name);
                assert(texts(out@) =~= before.push(added));
            }
            i += 1;
        }
        assert(rows.take(all.len() as int) == rows);
        sort_texts(&out)
    }

    /// Where the database is asked: `env_host` and `env_port` are the variables
    /// `MYSQL_HOST` and `MYSQL_PORT` of the environment, and `query_port` is the
    /// query port of the reconciled record.
    pub fn get_connection_params(
        env_host: Option<&str>,
        env_port: Option<&str>,
        query_port: Option<u16>,
    ) -> (r: (String, u16))
        ensures
            (r.0@, r.1) == connection_of(opt_str(env_host), opt_str(env_port), query_port),
    {
        match (env_host, env_port) {
            (Some(h), Some(p)) => match parse_u16(p) {
                Some(n) => {
                    return (h.to_owned(), n);
                },
                None => {},
            },
            _ => {},
        }
        match query_port {
            Some(p) => ("127.0.0.1".to_owned(), p),
            None => ("127.0.0.1".to_owned(), 9030),
        }
    }
}

} // verus!
