use cloud_cli::config::Config;
use cloud_cli::config_loader::{DorisConfig, MySQLConfig};
use cloud_cli::error::CliError;
use cloud_cli::tools::be::be_http_client::{
    ascending_ports, be_hosts, be_targets, endpoint_url, get_be_http_ports, get_be_ip,
    request_be_webserver_port, target_name, unreachable_error,
};
use cloud_cli::tools::be::list::{get_selected_be_host, set_selected_be_host, BeListTool};
use cloud_cli::tools::be::memz::{
    extract_memory_metrics, html_file_name, metrics_table, MemzGlobalTool, MemzTool,
};
use cloud_cli::tools::be::pipeline_tasks::{fits_console, get_summary, PipelineTasksTool};
use cloud_cli::tools::be::pstack::PstackTool;
use cloud_cli::tools::be::response_handler::{to_title_case, BeResponseHandler};
use cloud_cli::tools::be::be_vars::{prompt_for_variable_name, BeVarsTool};
use cloud_cli::tools::common::fs_utils::{
    collect_be_logs, collect_fe_logs, collect_log_files, get_user_config_dir, is_log_file_name,
    DirFile, DirListing,
};
use cloud_cli::tools::common::host_selection::{
    get_selected_host, set_selected_host, HostSelection,
};
use cloud_cli::tools::fe::jmap::{JmapDumpTool, JmapHistoTool};
use cloud_cli::tools::fe::jstack::JstackTool;
use cloud_cli::tools::fe::list::FeListTool;
use cloud_cli::tools::fe::profiler::FeProfilerTool;
use cloud_cli::tools::fe::routine_load::{
    get_routine_load_tools, no_job_id_message, RoutineLoadToolIndex,
};
use cloud_cli::tools::mysql::client::{MySQLTool, OutputMode};
use cloud_cli::tools::mysql::cluster::{Backend, ClusterInfo, Frontend};
use aes_gcm::aead::{Aead, KeyInit};
use base64::Engine;
use cloud_cli::tools::mysql::credentials::{default_user, get_key_path, CredentialManager};
use cloud_cli::tools::mysql::parser::{
    lookup, parse_backends, parse_frontends, parse_key_value, parse_key_value_pairs,
};
use cloud_cli::tools::{Tool, ToolKind, ToolRegistry};

fn frontend(host: &str, alive: bool) -> Frontend {
    Frontend {
        name: "fe".to_string(),
        host: host.to_string(),
        edit_log_port: 9010,
        http_port: 8030,
        query_port: 9030,
        rpc_port: 9020,
        role: "FOLLOWER".to_string(),
        is_master: true,
        cluster_id: "1".to_string(),
        alive,
        version: "doris-3.0.2".to_string(),
    }
}

fn backend(host: &str, http_port: u16, alive: bool) -> Backend {
    Backend {
        backend_id: "10".to_string(),
        host: host.to_string(),
        heartbeat_port: 9050,
        be_port: 9060,
        http_port,
        brpc_port: 8060,
        alive,
        version: "doris-3.0.2".to_string(),
        status: "{}".to_string(),
        node_role: "mix".to_string(),
        tag: None,
    }
}

fn cluster() -> ClusterInfo {
    ClusterInfo {
        frontends: vec![frontend("10.0.0.2", true), frontend("10.0.0.1", true), frontend("10.0.0.3", false), frontend("10.0.0.1", true)],
        backends: vec![backend("10.0.1.1", 8040, true), backend("10.0.1.2", 8041, false), backend("10.0.1.3", 8042, true)],
    }
}

#[test]
fn key_value_lines_split_at_the_first_colon() {
    assert_eq!(
        parse_key_value("  LastStartTime: 2025-07-31 18:06:19 "),
        Some(("LastStartTime".to_string(), "2025-07-31 18:06:19".to_string()))
    );
    assert_eq!(parse_key_value("ErrMsg: "), Some(("ErrMsg".to_string(), "".to_string())));
    assert_eq!(parse_key_value(": value"), None);
    assert_eq!(parse_key_value("no colon"), None);
    let fields = parse_key_value_pairs("a: 1\n\n****** 1. row ******\nb: 2\na: 3\n*************************** 2. row ***************************\n");
    assert_eq!(lookup(&fields, "a"), Some("3".to_string()));
    assert_eq!(lookup(&fields, "b"), Some("2".to_string()));
    assert_eq!(lookup(&fields, "c"), None);
    assert_eq!(lookup(&fields, "****** 1. row ******"), None);
}

#[test]
fn nodes_are_parsed_from_rows() {
    let output = "*************************** 1. row ***************************\nName: a\nHost: h1\nEditLogPort: 9010\nHttpPort: 8030\nQueryPort: 9030\nRpcPort: 9020\nRole: FOLLOWER\nIsMaster: false\nClusterId: 7\nAlive: yes\nVersion: v\n*************************** 2. row ***************************\nName: broken\nHost: h2\n*************************** 3. row ***************************\nName: c\nHost: h3\nEditLogPort: 9010\nHttpPort: 99999\nQueryPort: 9030\nRpcPort: 9020\nRole: FOLLOWER\nIsMaster: true\nClusterId: 7\nAlive: true\nVersion: v\n";
    let fes = parse_frontends(output);
    assert_eq!(fes.len(), 1);
    assert_eq!(fes[0].host, "h1");
    assert!(!fes[0].is_master);
    assert!(!fes[0].alive);
    assert!(parse_backends(output).is_empty());
    assert!(Frontend::parse_from_block("").is_none());
}

#[test]
fn tag_is_summed_up_by_the_json_library() {
    assert_eq!(Backend::parse_tag_info(""), None);
    assert_eq!(Backend::parse_tag_info("{}"), None);
    assert_eq!(Backend::parse_tag_info("not json"), Some("not json".to_string()));
    assert_eq!(Backend::parse_tag_info("{\"other\": 1}"), Some("{\"other\": 1}".to_string()));
    assert_eq!(Backend::parse_tag_info("[1, 2]"), Some("[1, 2]".to_string()));
    assert_eq!(
        Backend::parse_tag_info(
            "{\"location\" : \"default\", \"cloud_unique_id\": \"id-1\", \"compute_group_name\": \"g\", \"x\": 1}"
        ),
        Some("{\"cloud_cluster_id\":\"id-1\",\"cloud_cluster_name\":\"g\",\"location\":\"default\"}".to_string())
    );
    assert_eq!(
        Backend::parse_tag_info(
            "{\"cloud_cluster_id\": 5, \"cloud_unique_id\": \"ignored\", \"cloud_cluster_name\": {\"a\": [1, \"b\"]}}"
        ),
        Some("{\"cloud_cluster_id\":5,\"cloud_cluster_name\":{\"a\":[1,\"b\"]}}".to_string())
    );
}

#[test]
fn cluster_is_checked() {
    let mut info = cluster();
    assert!(info.validate().is_ok());
    assert_eq!(info.list_be_hosts(), vec!["10.0.1.1".to_string(), "10.0.1.3".to_string()]);
    assert_eq!(
        info.save_to_file(Ok("/home/op/.config/cloud-cli".to_string())).unwrap(),
        "/home/op/.config/cloud-cli/clusters.toml"
    );
    info.backends[2].version = String::new();
    assert_eq!(
        info.validate().unwrap_err().message(),
        "Configuration error: Backend 2 has an empty version"
    );
    info.backends[0].backend_id = String::new();
    assert_eq!(
        info.validate().unwrap_err().message(),
        "Configuration error: Backend 0 has an empty backend_id"
    );
    info.frontends[1].cluster_id = String::new();
    assert_eq!(
        info.validate().unwrap_err().message(),
        "Configuration error: Frontend 1 has an empty cluster_id"
    );
    info.frontends[0].host = String::new();
    assert_eq!(
        info.save_to_file(Ok("/x".to_string())).unwrap_err().message(),
        "Configuration error: Frontend 0 has an empty host"
    );
    info.frontends.clear();
    assert_eq!(
        info.validate().unwrap_err().message(),
        "Configuration error: No frontend nodes found"
    );
    let fine = cluster();
    let failed = fine.save_to_file(Err(CliError::ConfigError("no home".to_string())));
    assert_eq!(failed.unwrap_err().message(), "Configuration error: no home");
}

#[test]
fn be_web_ports_come_from_the_record_then_the_cluster() {
    let mut config = DorisConfig::default();
    let info = cluster();
    assert_eq!(get_be_http_ports(Some(&config), Some(&info)).unwrap(), vec![8040, 8042]);
    assert_eq!(get_be_http_ports(None, None).unwrap(), vec![8040, 8041]);
    assert_eq!(get_be_http_ports(Some(&config), None).unwrap(), vec![8040, 8041]);
    config.webserver_port = Some(18040);
    assert_eq!(get_be_http_ports(Some(&config), Some(&info)).unwrap(), vec![18040]);
    assert_eq!(get_be_ip(Some(&info)).unwrap(), vec!["10.0.1.1".to_string(), "10.0.1.3".to_string()]);
    assert_eq!(get_be_ip(None).unwrap(), vec!["127.0.0.1".to_string()]);
    assert_eq!(endpoint_url("10.0.1.1", 8040, "/varz"), "http://10.0.1.1:8040/varz");
    assert_eq!(request_be_webserver_port("a=1\nb=2\nab=3\n", Some("a")), "a=1\nab=3");
    assert_eq!(request_be_webserver_port("a=1\nb=2\n", None), "a=1\nb=2\n");
    assert_eq!(request_be_webserver_port("a=1\n", Some("zzz")), "");
    assert_eq!(
        unreachable_error(&vec!["h:1".to_string(), "h:2".to_string()]).message(),
        "Tool execution failed: Could not connect to any BE http port (h:1, h:2). Check if BE is running."
    );
}

#[test]
fn chosen_hosts_are_kept_for_the_session() {
    let mut selection = HostSelection::new();
    assert_eq!(get_selected_host(&selection, true), None);
    set_selected_host(&mut selection, false, "fe-host".to_string());
    set_selected_be_host(&mut selection, "be-host".to_string());
    assert_eq!(get_selected_host(&selection, false), Some("fe-host".to_string()));
    assert_eq!(get_selected_be_host(&selection), Some("be-host".to_string()));

    let hosts = FeListTool.hosts(&cluster());
    assert_eq!(hosts, vec!["10.0.0.1".to_string(), "10.0.0.2".to_string()]);
    let done = FeListTool.execute(&mut selection, &hosts, 1).unwrap();
    assert_eq!(done.message, "FE target updated for this session");
    assert_eq!(done.output_path, "console_output");
    assert_eq!(selection.fe, Some("10.0.0.2".to_string()));
    assert_eq!(
        FeListTool.execute(&mut selection, &Vec::new(), 0).unwrap_err().message(),
        "Configuration error: No FE hosts found in clusters.toml"
    );
    let be_hosts = cluster().list_be_hosts();
    BeListTool.execute(&mut selection, &be_hosts, 0).unwrap();
    assert_eq!(selection.be, Some("10.0.1.1".to_string()));
    assert_eq!(
        BeListTool.execute(&mut selection, &Vec::new(), 0).unwrap_err().message(),
        "Configuration error: No BE hosts found in clusters.toml"
    );
}

#[test]
fn registry_lists_the_tools_in_menu_order() {
    let registry = ToolRegistry::new();
    let fe: Vec<String> = registry.fe_tools().iter().map(|t| t.name()).collect();
    assert_eq!(fe, vec!["jmap-dump", "jmap-histo", "jstack"]);
    let be: Vec<String> = registry.be_tools().iter().map(|t| t.name()).collect();
    assert_eq!(be, vec!["pstack", "get-be-vars", "jmap-dump", "jmap-histo", "pipeline-tasks"]);
    assert_eq!(registry.get_fe_tool(2), Some(ToolKind::Jstack));
    assert_eq!(registry.get_fe_tool(3), None);
    assert_eq!(registry.get_be_tool(0), Some(ToolKind::Pstack));
    assert_eq!(registry.get_be_tool(5), None);
    assert!(ToolKind::Pstack.requires_pid());
    assert!(!ToolKind::BeVars.requires_pid());
    assert_eq!(ToolKind::FeProfiler.description(), "Generate flame graph for FE performance analysis using async-profiler");
    assert!(JstackTool.requires_pid());
    assert_eq!(PstackTool.description(), "Generate process stack trace (.txt)");
    let tools = get_routine_load_tools();
    assert_eq!(tools.len(), 3);
    assert_eq!(tools[0].name(), "routine_load_job_lister");
    assert_eq!(RoutineLoadToolIndex::JobLister.get_tool(&tools), None);
    let mut eight = vec![ToolKind::Jstack; 5];
    eight.extend(tools);
    assert_eq!(
        RoutineLoadToolIndex::TrafficMonitor.get_tool(&eight),
        Some(ToolKind::RoutineLoadTrafficMonitor)
    );
    assert_eq!(RoutineLoadToolIndex::PerformanceAnalyzer.index(), 6);
    assert_eq!(no_job_id_message(), "No Job ID in memory. Run 'Get Job ID' first.");
}

#[test]
fn plans_name_programs_and_files() {
    let config = Config {
        jdk_path: "/opt/jdk".to_string(),
        output_dir: "/tmp/out".to_string(),
        timeout_seconds: 60,
        no_progress_animation: false,
    };
    let dump = JmapDumpTool.execute(&config, 42, "20250801_144622");
    assert_eq!(dump.program, "/opt/jdk/bin/jmap");
    assert_eq!(dump.output_path, "/tmp/out/jmap_dump_42_20250801_144622.hprof");
    assert_eq!(
        dump.args,
        vec!["-dump:live,file=/tmp/out/jmap_dump_42_20250801_144622.hprof".to_string(), "42".to_string()]
    );
    assert_eq!(dump.message, "Heap dump completed successfully (timeout: 60s)");
    let histo = JmapHistoTool.execute(&config, 42, "s");
    assert_eq!(histo.args, vec!["-histo:live".to_string(), "42".to_string()]);
    assert_eq!(histo.output_path, "/tmp/out/jmap_histo_42_s.log");
    let jstack = JstackTool.execute(&config, 42, "s");
    assert_eq!(jstack.program, "/opt/jdk/bin/jstack");
    assert_eq!(jstack.output_path, "/tmp/out/jstack_42_s.log");
    let pstack = PstackTool.execute(&config, 42, "s");
    assert_eq!(pstack.program, "bash");
    assert_eq!(pstack.args, vec!["/opt/selectdb/ps.sh".to_string(), "42".to_string()]);
    assert_eq!(pstack.output_path, "/tmp/out/pstack_42_s.txt");
    assert!(PstackTool.ensure_pstack_script(false));
    assert_eq!(html_file_name("memz", "s"), "memz_s.html");
}

#[test]
fn profiler_takes_one_to_three_hundred_seconds() {
    assert_eq!(FeProfilerTool::prompt_duration(" 25 ").unwrap(), 25);
    assert_eq!(FeProfilerTool::prompt_duration("").unwrap(), 10);
    assert_eq!(FeProfilerTool::prompt_duration("300").unwrap(), 300);
    assert!(matches!(FeProfilerTool::prompt_duration("0"), Err(CliError::GracefulExit)));
    assert!(matches!(FeProfilerTool::prompt_duration("301"), Err(CliError::GracefulExit)));
    assert!(matches!(FeProfilerTool::prompt_duration("soon"), Err(CliError::GracefulExit)));
    assert_eq!(FeProfilerTool::duration_from_env("7"), 7);
    assert_eq!(FeProfilerTool::duration_from_env("x"), 10);
    let script = FeProfilerTool::script_path("/opt/doris/fe");
    assert_eq!(script, "/opt/doris/fe/bin/profile_fe.sh");
    assert_eq!(
        FeProfilerTool.execute_with_duration(&script, true, 25).unwrap(),
        "Flame graph generated successfully (duration: 25s)."
    );
    assert_eq!(
        FeProfilerTool.execute_with_duration(&script, false, 25).unwrap_err().message(),
        "Configuration error: profile_fe.sh not found at /opt/doris/fe/bin/profile_fe.sh. Please ensure Doris version is 2.1.4+"
    );
}

#[test]
fn memory_figures_are_read_from_the_answer() {
    let html = "Allocated: 100, active: 200, metadata: 300 (n_thp 0, edata 1), resident: 400, mapped: 500, retained: 600\ntcache_bytes:   700\ndirty:   N/A 1 2 3 800\n";
    let m = extract_memory_metrics(html);
    assert_eq!(m.allocated, Some(100));
    assert_eq!(m.active, Some(200));
    assert_eq!(m.metadata, Some(300));
    assert_eq!(m.resident, Some(400));
    assert_eq!(m.mapped, Some(500));
    assert_eq!(m.retained, Some(600));
    assert_eq!(m.thread_cache, Some(700));
    assert_eq!(m.dirty_pages, Some(800));
    let none = extract_memory_metrics("nothing here");
    assert_eq!(none.allocated, None);
    assert_eq!(none.dirty_pages, None);
    let huge = extract_memory_metrics("tcache_bytes: 99999999999999999999999");
    assert_eq!(huge.thread_cache, None);
}

#[test]
fn long_answers_are_summed_up() {
    assert_eq!(get_summary("  \n "), "No running pipeline tasks found.");
    assert_eq!(get_summary("a\nb\n"), "a\nb");
    let long: String = (1..=12).map(|i| format!("line {i}\n")).collect();
    let expected: String = (1..=10).map(|i| format!("line {i}")).collect::<Vec<_>>().join("\n")
        + "\n... (more content in output file)";
    assert_eq!(get_summary(&long), expected);
    assert!(fits_console("short"));
    assert!(fits_console(&("x".repeat(200) + "\ny\nz")));
    assert!(!fits_console(&("x".repeat(200) + "\ny\nz\nw")));
    assert_eq!(prompt_for_variable_name("  ".to_string()), "");
    assert_eq!(prompt_for_variable_name(" mem ".to_string()), " mem ");
}

#[test]
fn answers_are_shown_on_the_console() {
    let handler = BeResponseHandler {
        success_message: "Query completed!".to_string(),
        empty_warning: "No variables found matching '{}'.".to_string(),
        error_context: "Failed to query BE".to_string(),
        tips: "Ensure the BE service is running and accessible.".to_string(),
    };
    let shown = handler.handle_console_result(Ok("a=1".to_string()), "a");
    assert_eq!(shown.lines, vec!["[+]  Query completed!", "", "[i]  Results:", "a=1"]);
    assert_eq!(shown.result.unwrap().message, "Query completed for: a");
    let empty = handler.handle_console_result(Ok(String::new()), "zz");
    assert_eq!(empty.lines[3], "[*]  No variables found matching 'zz'.");
    let failed = handler.handle_console_result(
        Err(CliError::ToolExecutionFailed("down".to_string())),
        "a",
    );
    assert_eq!(
        failed.lines,
        vec![
            "[!]  Failed to query BE: Tool execution failed: down.",
            "[i]  Tips: Ensure the BE service is running and accessible."
        ]
    );
    assert!(failed.result.is_err());
    let blank = handler.handle_file_result("/out", Ok(" \n".to_string()), "pipeline_tasks", "s", "x");
    assert_eq!(blank.file, None);
    assert_eq!(blank.summary, None);
    assert_eq!(blank.lines.len(), 4);
    assert_eq!(blank.result.unwrap().message, "No data found");
    let kept = handler.handle_file_result("/out", Ok("data".to_string()), "pipeline_tasks", "s", "x");
    assert_eq!(kept.file, Some("/out/pipeline_tasks_s.txt".to_string()));
    assert_eq!(kept.summary, Some("x".to_string()));
    assert_eq!(kept.lines.len(), 3);
    let done = kept.result.unwrap();
    assert_eq!(done.output_path, "/out/pipeline_tasks_s.txt");
    assert_eq!(done.message, "Pipeline Tasks saved to /out/pipeline_tasks_s.txt");
    let lost = handler.handle_file_result(
        "/out",
        Err(CliError::ToolExecutionFailed("down".to_string())),
        "pipeline_tasks",
        "s",
        "x",
    );
    assert_eq!(lost.file, None);
    assert_eq!(lost.lines.len(), 2);
    assert!(lost.result.is_err());
}

fn file(name: &str, modified: Option<u64>) -> DirFile {
    DirFile { path: format!("/log/{name}"), name: name.to_string(), modified }
}

#[test]
fn logs_are_collected_newest_first() {
    assert!(is_log_file_name("fe.log", "fe.log"));
    assert!(is_log_file_name("fe.log.20250801-1", "fe.log"));
    assert!(!is_log_file_name("fe.log.1.gz", "fe.log"));
    assert!(!is_log_file_name("fe.log.zip", "fe.log"));
    assert!(!is_log_file_name("fe.log.tar", "fe.log"));
    assert!(!is_log_file_name("fe.warn.log", "fe.log"));
    let listing = DirListing::Files(vec![
        file("fe.log.2", Some(20)),
        file("fe.audit.log", Some(99)),
        file("fe.log", Some(30)),
        file("fe.log.3", None),
        file("fe.log.1.gz", Some(40)),
        file("fe.log.4", Some(20)),
        file("be.INFO.1", Some(5)),
    ]);
    assert_eq!(
        collect_fe_logs("/log", &listing).unwrap(),
        vec!["/log/fe.log", "/log/fe.log.4", "/log/fe.log.2", "/log/fe.log.3"]
    );
    assert_eq!(collect_be_logs("/log", &listing).unwrap(), vec!["/log/be.INFO.1"]);
    assert_eq!(
        collect_log_files("/log", &listing, "x").unwrap_err().message(),
        "Configuration error: No x files found in directory: /log"
    );
    assert_eq!(
        collect_fe_logs("/log", &DirListing::Missing).unwrap_err().message(),
        "Configuration error: Log directory does not exist: /log"
    );
    assert_eq!(
        collect_fe_logs("/log", &DirListing::NotADirectory).unwrap_err().message(),
        "Configuration error: Path is not a directory: /log"
    );
    assert_eq!(
        collect_fe_logs("/log", &DirListing::Unreadable("denied".to_string()))
            .unwrap_err()
            .message(),
        "IO error: denied"
    );
    assert_eq!(get_user_config_dir(Some("/home/op")).unwrap(), "/home/op/.config/cloud-cli");
    assert_eq!(
        get_user_config_dir(None).unwrap_err().message(),
        "Configuration error: Could not determine the user's home directory"
    );
    assert_eq!(get_key_path("/home/op"), "/home/op/.config/cloud-cli/key");
    assert_eq!(default_user(), "root");
}

#[test]
fn database_client_is_called_with_credentials() {
    let mut config = DorisConfig::default();
    assert_eq!(
        MySQLTool::query_sql_with_config(&config, "h", 9030, "pw", "SELECT 1")
            .unwrap_err()
            .message(),
        "Configuration error: MySQL credentials not found in config"
    );
    config.mysql = Some(MySQLConfig { user: "root".to_string(), password: "enc".to_string() });
    assert_eq!(
        MySQLTool::query_sql_with_config(&config, "h", 9030, "pw", "SELECT 1").unwrap(),
        vec!["-h", "h", "-P", "9030", "-u", "root", "-ppw", "-A", "-e", "SELECT 1"]
    );
    assert_eq!(
        MySQLTool::query_sql_raw_with_config(&config, "h", 9030, "", "SHOW DATABASES;").unwrap(),
        vec!["-h", "h", "-P", "9030", "-u", "root", "-N", "-B", "-r", "-A", "-e", "SHOW DATABASES;"]
    );
    assert_eq!(
        MySQLTool::run_mysql_command("h", 1, "u", "", "q", OutputMode::Standard),
        vec!["-h", "h", "-P", "1", "-u", "u", "-A", "-e", "q"]
    );
    assert_eq!(
        MySQLTool::query_failure("ERROR 1045 (28000): Access denied for user 'root'", "h", 1).message(),
        "MySQL access denied: Access denied. Please update MySQL credentials."
    );
    assert_eq!(
        MySQLTool::query_failure("ERROR 1049: Unknown database 'x'", "h", 1).message(),
        "Tool execution failed: Unknown database. Please verify the database name."
    );
    assert_eq!(
        MySQLTool::query_failure("ERROR 2003 (HY000): Can't connect", "h", 9030).message(),
        "Tool execution failed: Cannot connect to MySQL at h:9030. Check host/port and service status."
    );
    assert_eq!(
        MySQLTool::query_failure("something else", "h", 1).message(),
        "Tool execution failed: MySQL query failed. Please try again."
    );
    assert_eq!(
        MySQLTool::list_databases("zeta\n mysql \ninformation_schema\n\nalpha\n__internal_schema\nbeta\n"),
        vec!["alpha", "beta", "zeta"]
    );
    assert_eq!(MySQLTool::list_tables(" t2 \nt1\n\n"), vec!["t1", "t2"]);
    assert_eq!(MySQLTool::list_tables_query("db"), "USE `db`; SHOW TABLES;");
    assert_eq!(
        MySQLTool::get_connection_params(Some("db.example"), Some("19030"), Some(9031)),
        ("db.example".to_string(), 19030)
    );
    assert_eq!(
        MySQLTool::get_connection_params(Some("db.example"), Some("port"), Some(9031)),
        ("127.0.0.1".to_string(), 9031)
    );
    assert_eq!(
        MySQLTool::get_connection_params(Some("db.example"), None, None),
        ("127.0.0.1".to_string(), 9030)
    );
    let outputs = vec![Some("4711 DorisFE".to_string())];
    assert_eq!(MySQLTool::detect_fe_process(&outputs, "op").unwrap(), 4711);
    let both = MySQLTool.query_cluster_info(Ok(String::new()), Ok(String::new())).unwrap();
    assert!(both.frontends.is_empty() && both.backends.is_empty());
    assert_eq!(
        MySQLTool
            .query_cluster_info(Err(CliError::ToolExecutionFailed("x".to_string())), Ok(String::new()))
            .unwrap_err()
            .message(),
        "Configuration error: Failed to query frontends: Tool execution failed: x"
    );
    assert_eq!(
        MySQLTool
            .query_cluster_info(Ok(String::new()), Err(CliError::MySQLAccessDenied("no".to_string())))
            .unwrap_err()
            .message(),
        "Configuration error: Failed to query backends: MySQL access denied: no"
    );
}

#[test]
fn saved_answer_is_named_in_title_case() {
    assert_eq!(to_title_case("pipeline tasks"), "Pipeline Tasks");
    assert_eq!(to_title_case("  mEMORY   pROFILE "), "Memory Profile");
    assert_eq!(to_title_case(""), "");
    let handler = BeResponseHandler {
        success_message: "ok".to_string(),
        empty_warning: "none".to_string(),
        error_context: "failed".to_string(),
        tips: "tip".to_string(),
    };
    assert_eq!(
        handler.saved_message("pipeline_tasks", "/out/pipeline_tasks_s.txt"),
        "Pipeline Tasks saved to /out/pipeline_tasks_s.txt"
    );
}

#[test]
fn storage_nodes_are_asked_host_by_host_and_port_by_port() {
    let cluster = vec!["10.0.1.3".to_string(), "10.0.1.1".to_string(), "10.0.1.3".to_string()];
    assert_eq!(be_hosts(Some("10.0.1.2"), &cluster), vec!["10.0.1.1", "10.0.1.2", "10.0.1.3"]);
    assert_eq!(be_hosts(Some("10.0.1.1"), &cluster), vec!["10.0.1.1", "10.0.1.3"]);
    assert_eq!(be_hosts(None, &cluster), vec!["10.0.1.1", "10.0.1.3"]);
    assert_eq!(be_hosts(None, &vec![]), vec!["127.0.0.1"]);
    assert_eq!(be_hosts(Some("h"), &vec![]), vec!["h"]);
    assert_eq!(ascending_ports(&vec![8041, 8040, 8041, 80]), vec![80, 8040, 8041]);
    assert_eq!(ascending_ports(&vec![]), Vec::<u16>::new());
    let hosts = vec!["a".to_string(), "b".to_string()];
    assert_eq!(
        be_targets(&hosts, &vec![1, 2]),
        vec![
            ("a".to_string(), 1),
            ("a".to_string(), 2),
            ("b".to_string(), 1),
            ("b".to_string(), 2)
        ]
    );
    assert!(be_targets(&hosts, &vec![]).is_empty());
    assert!(be_targets(&vec![], &vec![1]).is_empty());
    assert_eq!(target_name("10.0.1.1", 8040), "10.0.1.1:8040");
    let mut ordered = std::collections::BTreeSet::new();
    for host in ["b", "a", "ab", "B", ""] {
        for port in [9u16, 10, 9] {
            ordered.insert((host.to_string(), port));
        }
    }
    let all: Vec<String> = ["b", "a", "ab", "B", ""].iter().map(|h| h.to_string()).collect();
    assert_eq!(
        be_targets(&be_hosts(None, &all), &ascending_ports(&vec![9, 10, 9])),
        ordered.into_iter().collect::<Vec<_>>()
    );
}

#[test]
fn memory_figures_are_shown_in_a_table() {
    let html = "Allocated: 2147483648, active: 1048576, metadata: 1536, x, resident: 5, mapped: 0, retained: 1025\ntcache_bytes:   2048\n";
    let metrics = extract_memory_metrics(html);
    let row = |name: &str, value: &str| format!("│ {name:<17} │ {value:<34} │\n");
    let expected = format!(
        " Key Memory Metrics:\n┌───────────────────┬────────────────────────────────────┐\n│ Metric            │ Value                              │\n├───────────────────┼────────────────────────────────────┤\n{}{}{}{}{}{}{}{}└───────────────────┴────────────────────────────────────┘",
        row("Allocated", "2.00 GB (2147483648 bytes)"),
        row("Active", "1.00 MB (1048576 bytes)"),
        row("Metadata", "1.50 KB (1536 bytes)"),
        row("Resident", "5 bytes"),
        row("Mapped", "0 bytes"),
        row("Retained", "1.00 KB (1025 bytes)"),
        row("Thread Cache", "2.00 KB (2048 bytes)"),
        row("Dirty Pages", "Unknown"),
    );
    assert_eq!(metrics_table(&metrics), expected);
    assert_eq!(MemzTool.endpoint(), "/memz");
    assert_eq!(MemzGlobalTool.endpoint(), "/memz?type=global");
    let report = MemzTool.execute(Ok(html.to_string()), "/out/memz_s.html");
    assert_eq!(
        report.lines,
        vec![
            "[+]  Memory metrics fetched successfully!".to_string(),
            "".to_string(),
            "[i]  Results:".to_string(),
            expected.clone()
        ]
    );
    let done = report.result.unwrap();
    assert_eq!(done.output_path, "/out/memz_s.html");
    assert_eq!(done.message, "Jemalloc memory profile saved to /out/memz_s.html");
    let global = MemzGlobalTool.execute(Ok(html.to_string()), "/out/g.html");
    assert_eq!(global.lines[0], "[+]  Global memory metrics fetched successfully!");
    assert_eq!(global.result.unwrap().message, "Global memory profile saved to /out/g.html");
    let failed = MemzTool.execute(Err(CliError::ToolExecutionFailed("down".to_string())), "");
    assert_eq!(
        failed.lines,
        vec![
            "[!]  Failed to fetch memory metrics: Tool execution failed: down.",
            "[i]  Tips: Ensure the BE service is running and accessible."
        ]
    );
    assert!(failed.result.is_err());
    let failed = MemzGlobalTool.execute(Err(CliError::ToolExecutionFailed("down".to_string())), "");
    assert_eq!(
        failed.lines[0],
        "[!]  Failed to fetch global memory metrics: Tool execution failed: down."
    );
}

#[test]
fn a_long_answer_about_pipeline_tasks_is_kept_in_a_file() {
    let tool = PipelineTasksTool;
    assert_eq!(tool.endpoint(), "/api/running_pipeline_tasks");
    let short = tool.execute("/out", Ok("task 1\ntask 2".to_string()), "s");
    assert_eq!(
        short.lines,
        vec!["[+]  Pipeline tasks fetched successfully!", "", "[i]  Results:", "task 1\ntask 2"]
    );
    assert_eq!(short.file, None);
    assert_eq!(short.summary, None);
    let done = short.result.unwrap();
    assert_eq!(done.output_path, "console_output");
    assert_eq!(done.message, "Query completed for: pipeline tasks");
    let none = tool.execute("/out", Ok(String::new()), "s");
    assert_eq!(none.lines[3], "[*]  No running pipeline tasks found.");
    let long: String = (0..12).map(|i| format!("pipeline task number {i}\n")).collect();
    assert!(long.len() >= 100);
    let kept = tool.execute("/out", Ok(long.clone()), "20250801_101500");
    assert_eq!(kept.lines, vec!["[+]  Pipeline tasks fetched successfully!", "", "[i]  Results:"]);
    assert_eq!(kept.file, Some("/out/pipeline_tasks_20250801_101500.txt".to_string()));
    assert_eq!(kept.summary, Some(get_summary(&long)));
    assert!(kept.summary.unwrap().ends_with("number 9\n... (more content in output file)"));
    assert_eq!(
        kept.result.unwrap().message,
        "Pipeline Tasks saved to /out/pipeline_tasks_20250801_101500.txt"
    );
    let wide = "x".repeat(200);
    assert_eq!(tool.execute("/out", Ok(wide), "s").file, None);
    let spaces = " \n".repeat(60);
    let blank = tool.execute("/out", Ok(spaces), "s");
    assert_eq!(blank.file, None);
    assert_eq!(blank.lines[3], "[*]  No running pipeline tasks found.");
    assert_eq!(blank.result.unwrap().message, "No data found");
    let failed = tool.execute("/out", Err(CliError::ToolExecutionFailed("down".to_string())), "s");
    assert_eq!(
        failed.lines,
        vec![
            "[!]  Failed to fetch pipeline tasks: Tool execution failed: down.",
            "[i]  Tips: Ensure the BE service is running and accessible."
        ]
    );
    assert!(failed.result.is_err());
}

#[test]
fn variables_of_a_storage_node_are_shown() {
    assert_eq!(BeVarsTool.endpoint(), "/varz");
    let found = BeVarsTool.execute(Ok("a=1".to_string()), "a");
    assert_eq!(found.lines, vec!["[+]  Query completed!", "", "[i]  Results:", "a=1"]);
    assert_eq!(found.result.unwrap().message, "Query completed for: a");
    let none = BeVarsTool.execute(Ok(String::new()), "zz");
    assert_eq!(none.lines[3], "[*]  No variables found matching 'zz'.");
    let failed = BeVarsTool.execute(Err(CliError::ToolExecutionFailed("down".to_string())), "a");
    assert_eq!(failed.lines[0], "[!]  Failed to query BE: Tool execution failed: down.");
    assert!(failed.result.is_err());
}

#[test]
fn an_answer_that_will_not_do_as_a_duration_is_warned_of() {
    assert_eq!(FeProfilerTool::duration_warning("25"), None);
    assert_eq!(FeProfilerTool::duration_warning("  "), None);
    assert_eq!(
        FeProfilerTool::duration_warning("301"),
        Some("Duration must be between 1 and 300 seconds!".to_string())
    );
    assert_eq!(
        FeProfilerTool::duration_warning("0"),
        Some("Duration must be between 1 and 300 seconds!".to_string())
    );
    assert_eq!(
        FeProfilerTool::duration_warning("soon"),
        Some("Please enter a valid number!".to_string())
    );
    let mut record = DorisConfig::default();
    record.install_dir = "/opt/doris".to_string();
    assert_eq!(FeProfilerTool::install_dir(&record), "/opt/doris");
    record.fe_install_dir = Some("/opt/doris/fe".to_string());
    assert_eq!(FeProfilerTool::install_dir(&record), "/opt/doris/fe");
}

#[test]
fn passwords_are_kept_sealed_and_read_back() {
    assert!(CredentialManager::new(vec![1u8; 31]).is_none());
    assert!(CredentialManager::new(vec![1u8; 33]).is_none());
    let keeper = CredentialManager::new((0u8..32).collect()).unwrap();
    let nonce: Vec<u8> = (100u8..112).collect();
    let kept = keeper.encrypt_password(&nonce, "s3cret ö").unwrap();
    assert_ne!(kept, "s3cret ö");
    let bytes = base64::engine::general_purpose::STANDARD.decode(&kept).unwrap();
    assert_eq!(&bytes[..12], &nonce[..]);
    assert_eq!(bytes.len(), 12 + "s3cret ö".len() + 16);
    assert_eq!(keeper.decrypt_password(&kept).unwrap(), "s3cret ö");
    assert_eq!(keeper.encrypt_password(&nonce, "s3cret ö").unwrap(), kept);
    let other: Vec<u8> = (0u8..12).collect();
    assert_ne!(keeper.encrypt_password(&other, "s3cret ö").unwrap(), kept);
    let empty = keeper.encrypt_password(&nonce, "").unwrap();
    assert_eq!(keeper.decrypt_password(&empty).unwrap(), "");
    assert_eq!(keeper.decrypt_password("").unwrap(), "");
    let stored = keeper.encrypt_credentials(&nonce, "root", "pw").unwrap();
    assert_eq!(stored.user, "root");
    assert_eq!(keeper.decrypt_password(&stored.password).unwrap(), "pw");

    let message = |r: Result<String, CliError>| r.unwrap_err().message();
    assert!(message(keeper.decrypt_password("not base64!"))
        .starts_with("IO error: Base64 decode failed: "));
    assert_eq!(message(keeper.decrypt_password("QUJD")), "IO error: Invalid encrypted data");
    let stranger = CredentialManager::new(vec![9u8; 32]).unwrap();
    assert!(message(stranger.decrypt_password(&kept)).starts_with("IO error: Decryption failed: "));
    let twelve = base64::engine::general_purpose::STANDARD.encode([0u8; 12]);
    assert!(message(keeper.decrypt_password(&twelve)).starts_with("IO error: Decryption failed: "));
    let cipher = aes_gcm::Aes256Gcm::new(aes_gcm::Key::<aes_gcm::Aes256Gcm>::from_slice(
        &(0u8..32).collect::<Vec<u8>>(),
    ));
    let sealed = cipher.encrypt(aes_gcm::Nonce::from_slice(&nonce), &[0xffu8, 0xfe][..]).unwrap();
    let mut combined = nonce.clone();
    combined.extend_from_slice(&sealed);
    let no_text = base64::engine::general_purpose::STANDARD.encode(combined);
    assert!(message(keeper.decrypt_password(&no_text)).starts_with("IO error: UTF8 decode failed: "));
}
