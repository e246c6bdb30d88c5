use cloud_cli::error::CliError;
use cloud_cli::tools::fe::routine_load::error_checker::RoutineLoadErrorChecker;
use cloud_cli::tools::fe::routine_load::job_lister::{LagRow, ListingStep, RoutineLoadJobLister};
use cloud_cli::tools::fe::routine_load::job_manager::{counter, RoutineLoadJobManager};
use cloud_cli::tools::fe::routine_load::log_parser::{FeLogParser, LogCommitEntry};
use cloud_cli::tools::fe::routine_load::models::{JobStatistic, RoutineLoadJob, RoutineLoadState};
use cloud_cli::tools::fe::routine_load::performance_analyzer::{
    clock, PerformanceStats, RoutineLoadPerformanceAnalyzer,
};
use cloud_cli::tools::fe::routine_load::traffic_monitor::{
    minute_label, minute_of_day, second_of_day, RoutineLoadTrafficMonitor,
};
use cloud_cli::ui::dialogs::{no_jobs_notice, unknown_db_notice};

const OUTPUT: &str = r#"*************************** 1. row ***************************
                  Id: 12345
                Name: load_orders
          CreateTime: 2025-08-01 10:00:00
           PauseTime: NULL
             EndTime: NULL
              DbName: sales
           TableName: orders
               State: RUNNING
      DataSourceType: KAFKA
      CurrentTaskNum: 3
           Statistic: {"receivedBytes":1048576,"runningTxns":[],"errorRows":2,"committedTaskNum":7,"loadedRows":1000,"loadRowsRate":50,"abortedTaskNum":0,"errorRowsAfterResumed":0,"totalRows":1002,"unselectedRows":0,"receivedBytesRate":1024,"taskExecuteTimeMs":20000}
            Progress: {"1":"200","0":"100","2":"300"}
                 Lag: {"0":5,"1":0,"3":9}
        ErrorLogUrls: NULL
            OtherMsg: 
*************************** 2. row ***************************
                  Id: 777
                Name: paused_job
               State: PAUSED
           PauseTime: 2025-08-01 11:00:00
           Statistic: NULL
            Progress: NULL
                 Lag: NULL
*************************** 3. row ***************************
                Name: no id here
"#;

fn manager() -> RoutineLoadJobManager {
    RoutineLoadJobManager::new()
}

fn job(id: &str, name: &str, state: &str) -> RoutineLoadJob {
    RoutineLoadJob {
        id: id.to_string(),
        name: name.to_string(),
        state: state.to_string(),
        db_name: "db".to_string(),
        table_name: "t".to_string(),
        create_time: "2025-08-01 10:00:00".to_string(),
        pause_time: None,
        end_time: None,
        current_task_num: None,
        data_source_type: None,
        statistic: None,
        progress: None,
        lag: None,
        error_log_urls: None,
        other_msg: None,
    }
}

#[test]
fn jobs_are_read_from_the_listing() {
    let jobs = manager().parse_routine_load_output(OUTPUT).unwrap();
    assert_eq!(jobs.len(), 2);
    let first = &jobs[0];
    assert_eq!(first.id, "12345");
    assert_eq!(first.name, "load_orders");
    assert_eq!(first.state, "RUNNING");
    assert_eq!(first.db_name, "sales");
    assert_eq!(first.table_name, "orders");
    assert_eq!(first.create_time, "2025-08-01 10:00:00");
    assert_eq!(first.pause_time, None);
    assert_eq!(first.end_time, None);
    assert_eq!(first.current_task_num, Some("3".to_string()));
    assert_eq!(first.data_source_type, Some("KAFKA".to_string()));
    assert_eq!(first.error_log_urls, Some("NULL".to_string()));
    assert_eq!(first.other_msg, Some("".to_string()));
    let stat = first.statistic.unwrap();
    assert_eq!(stat.received_bytes, 1048576);
    assert_eq!(stat.loaded_rows, 1000);
    assert_eq!(stat.error_rows, 2);
    assert_eq!(stat.committed_task_num, 7);
    assert_eq!(stat.load_rows_rate, 50);
    assert_eq!(stat.aborted_task_num, 0);
    assert_eq!(stat.total_rows, 1002);
    assert_eq!(stat.unselected_rows, 0);
    assert_eq!(stat.received_bytes_rate, 1024);
    assert_eq!(stat.task_execute_time_ms, 20000);
    assert_eq!(
        first.progress,
        Some(vec![
            ("0".to_string(), "100".to_string()),
            ("1".to_string(), "200".to_string()),
            ("2".to_string(), "300".to_string())
        ])
    );
    assert_eq!(
        first.lag,
        Some(vec![("0".to_string(), 5), ("1".to_string(), 0), ("3".to_string(), 9)])
    );
    let second = &jobs[1];
    assert_eq!(second.state, "PAUSED");
    assert_eq!(second.pause_time, Some("2025-08-01 11:00:00".to_string()));
    assert!(second.statistic.is_none() && second.progress.is_none() && second.lag.is_none());
    assert_eq!(second.db_name, "");
    assert_eq!(second.data_source_type, None);
}

#[test]
fn job_without_a_state_is_unknown() {
    let parsed = manager().parse_job_block("Id: 1\nName: n\n").unwrap().unwrap();
    assert_eq!(parsed.state, "UNKNOWN");
    assert!(manager().parse_job_block("Id: 1\n").unwrap().is_none());
    assert!(manager().parse_job_block("").unwrap().is_none());
}

#[test]
fn unreadable_json_fails_the_listing() {
    let bad_stat = manager().parse_job_block("Id: 1\nName: n\nStatistic: {oops\n").unwrap_err();
    assert!(bad_stat.message().starts_with("Tool execution failed: Failed to parse statistic: "));
    assert!(bad_stat.message().len() > "Tool execution failed: Failed to parse statistic: ".len());
    let bad_progress =
        manager().parse_job_block("Id: 1\nName: n\nProgress: {\"0\": 5}\n").unwrap_err();
    assert!(bad_progress.message().starts_with("Tool execution failed: Failed to parse progress: "));
    let bad_lag = manager().parse_job_block("Id: 1\nName: n\nLag: [1]\n").unwrap_err();
    assert!(bad_lag.message().starts_with("Tool execution failed: Failed to parse lag: "));
    let whole = manager().parse_routine_load_output(
        "*** 1. row ***\nId: 1\nName: n\n*************************** 2. row ***************************\nId: 2\nName: m\nLag: x\n",
    );
    assert!(whole.is_err());
    let stat = manager().parse_statistic("{\"loadedRows\": 5, \"errorRows\": -1, \"totalRows\": \"7\"}").unwrap();
    assert_eq!((stat.loaded_rows, stat.error_rows, stat.total_rows), (5, 0, 0));
    assert_eq!(manager().parse_statistic("[]").unwrap().loaded_rows, 0);
    assert_eq!(manager().parse_lag("{\"0\": -3}").unwrap(), vec![("0".to_string(), -3)]);
    assert_eq!(manager().parse_progress("{}").unwrap(), Vec::new());
    assert_eq!(counter(None), 0);
    assert_eq!(counter(Some(9)), 9);
}

#[test]
fn session_remembers_the_chosen_job() {
    let mut m = manager();
    assert_eq!(m.get_current_job_id(), None);
    m.save_job_id("12345".to_string(), "load_orders".to_string(), "sales".to_string()).unwrap();
    assert_eq!(m.get_current_job_id(), Some("12345".to_string()));
    assert_eq!(m.get_current_job_name(), Some("load_orders".to_string()));
    assert_eq!(m.get_last_database(), Some("sales".to_string()));
    assert!(!m.validate_job_id("12345").unwrap());
    m.update_job_cache(vec![
        job("1", "first", "RUNNING"),
        job("2", "second", "PAUSED"),
        job("1", "first again", "STOPPED"),
    ])
    .unwrap();
    let cache = m.get_job_cache().unwrap();
    assert_eq!(cache.len(), 2);
    assert_eq!(cache[0].id, "2");
    assert_eq!(cache[1].name, "first again");
    assert!(m.validate_job_id("1").unwrap());
    assert!(m.validate_job_id("2").unwrap());
    assert!(!m.validate_job_id("3").unwrap());
    assert!(!m.validate_job_id("1a").unwrap());
    assert!(!m.validate_job_id("").unwrap());
    assert_eq!(m.get_current_job_id(), Some("12345".to_string()));
    m.update_job_cache(vec![job("9", "only", "RUNNING")]).unwrap();
    assert!(!m.validate_job_id("1").unwrap());
    m.clear_state().unwrap();
    assert_eq!(m.get_current_job_id(), None);
    assert!(m.get_job_cache().unwrap().is_empty());
    let mut state = RoutineLoadState::new();
    state.last_database = Some("x".to_string());
    state.clear();
    assert_eq!(state.last_database, None);

    let lister = RoutineLoadJobLister;
    lister.save_selected_job(&mut m, &job("5", "five", "RUNNING"), "sales").unwrap();
    assert_eq!(m.get_current_job_id(), Some("5".to_string()));
    assert_eq!(m.get_last_database(), Some("sales".to_string()));
    assert!(m.validate_job_id("5").unwrap());
}

#[test]
fn findings_name_what_is_wrong() {
    let mut j = job("1", "n", "RUNNING");
    assert!(RoutineLoadErrorChecker.execute(&j).is_empty());
    j.state = "PAUSED".to_string();
    j.statistic = Some(JobStatistic {
        received_bytes: 0,
        loaded_rows: 0,
        error_rows: 3,
        committed_task_num: 0,
        load_rows_rate: 0,
        aborted_task_num: 0,
        total_rows: 0,
        unselected_rows: 4,
        received_bytes_rate: 0,
        task_execute_time_ms: 0,
    });
    j.error_log_urls = Some("  http://fe/log  ".to_string());
    assert_eq!(
        RoutineLoadErrorChecker.execute(&j),
        vec!["State is PAUSED", "Error rows: 3", "Unselected rows: 4", "Error log URLs: http://fe/log"]
    );
    j.state = "NEED_SCHEDULE".to_string();
    j.error_log_urls = Some(" NULL ".to_string());
    assert_eq!(RoutineLoadErrorChecker.execute(&j), vec!["Error rows: 3", "Unselected rows: 4"]);
    let jobs = vec![job("1", "a", "RUNNING"), job("2", "b", "RUNNING")];
    assert_eq!(RoutineLoadErrorChecker::find_job(jobs.clone(), "2", "db").unwrap().name, "b");
    assert_eq!(
        RoutineLoadErrorChecker::find_job(jobs, "3", "db").unwrap_err().message(),
        "Invalid input: Job 3 not found in database db"
    );
}

#[test]
fn log_lines_tell_of_commits() {
    let parser = FeLogParser::new();
    let line = "2025-08-01 14:46:22,123 INFO (x) [RoutineLoadJob.commitTxn():1] job 12345 RLTaskTxnCommitAttachment [loadedRows=1000, filteredRows=0, receivedBytes=2048, taskExecutionTimeMs=1500] transactionId:987_a-b";
    let entry = parser.parse_line(line, "12345").unwrap();
    assert_eq!(entry.timestamp, 1_754_059_582);
    assert_eq!(entry.loaded_rows, Some(1000));
    assert_eq!(entry.received_bytes, Some(2048));
    assert_eq!(entry.task_execution_ms, Some(1500));
    assert_eq!(entry.transaction_id, Some("987_a-b".to_string()));
    assert!(parser.parse_line(line, "99999").is_none());
    assert!(parser.parse_line("2025-08-01 14:46:22,123 job 12345 something else", "12345").is_none());
    assert!(parser.parse_line("no time commitTxn 12345 loadedRows=1", "12345").is_none());
    assert!(parser
        .parse_line("2025-13-01 14:46:22,123 commitTxn 12345 loadedRows=1", "12345")
        .is_none());
    assert!(parser
        .parse_line(
            "2025-08-01 14:46:22,123 commitTxn 12345 loadedRows=99999999999999999999999",
            "12345"
        )
        .is_none());
    let bare = parser.parse_line("2025-08-01 00:00:00,000 commitTxn 12345", "12345").unwrap();
    assert_eq!(bare.loaded_rows, None);
    assert_eq!(bare.transaction_id, None);
    let twice = parser
        .parse_line("2025-08-01 00:00:00,000 commitTxn 12345 loadedRows=1 loadedRows=2", "12345")
        .unwrap();
    assert_eq!(twice.loaded_rows, Some(2));
    let mut out = Vec::new();
    parser.scan_lines(
        &vec![line.to_string(), "noise".to_string(), line.replace("1000", "7")],
        "12345",
        &mut out,
    );
    assert_eq!(out.len(), 2);
    assert_eq!(out[1].loaded_rows, Some(7));
}

fn entry(ts: i64, rows: Option<u64>, txn: Option<&str>) -> LogCommitEntry {
    LogCommitEntry {
        timestamp: ts,
        loaded_rows: rows,
        received_bytes: Some(10),
        task_execution_ms: Some(100),
        transaction_id: txn.map(|t| t.to_string()),
    }
}

#[test]
fn entries_are_windowed_and_deduplicated() {
    let analyzer = RoutineLoadPerformanceAnalyzer;
    let entries = vec![entry(1000, Some(1), None), entry(4000, Some(2), None), entry(2200, Some(3), None)];
    let kept = analyzer.filter_entries_by_time_window(entries.clone(), 30).unwrap();
    assert_eq!(kept.iter().map(|e| e.timestamp).collect::<Vec<_>>(), vec![4000, 2200]);
    let all = analyzer.filter_entries_by_time_window(entries.clone(), 50).unwrap();
    assert_eq!(all.len(), 3);
    let none = analyzer.filter_entries_by_time_window(entries.clone(), -1);
    assert_eq!(
        none.unwrap_err().message(),
        "Tool execution failed: No matching commit entries found in FE logs"
    );
    assert_eq!(analyzer.filter_entries_by_time_window(entries, i64::MAX).unwrap().len(), 3);

    let dup = vec![
        entry(1, Some(5), None),
        entry(2, Some(5), Some("t2")),
        entry(1, Some(5), Some("t1")),
        entry(1, None, None),
        entry(1, Some(5), Some("late")),
        entry(2, Some(5), None),
    ];
    let deduped = analyzer.deduplicate_entries(dup).unwrap();
    assert_eq!(deduped.len(), 3);
    assert_eq!(deduped[0].transaction_id, Some("t1".to_string()));
    assert_eq!(deduped[1].transaction_id, Some("t2".to_string()));
    assert_eq!(deduped[2].loaded_rows, None);
    assert!(analyzer.deduplicate_entries(Vec::new()).is_err());
    assert!(RoutineLoadPerformanceAnalyzer::is_same_commit(
        &entry(1, None, None),
        &entry(1, Some(0), Some("x"))
    ));
}

#[test]
fn commits_are_summed_up() {
    let mut stats = PerformanceStats::new();
    assert!(stats.display_summary().is_empty());
    stats.update(&LogCommitEntry {
        timestamp: 0,
        loaded_rows: Some(1_000_000),
        received_bytes: Some(2048),
        task_execution_ms: Some(300),
        transaction_id: None,
    });
    stats.update(&LogCommitEntry {
        timestamp: 0,
        loaded_rows: Some(3_000_001),
        received_bytes: None,
        task_execution_ms: Some(100),
        transaction_id: None,
    });
    assert_eq!(stats.count, 2);
    assert_eq!((stats.min_ms, stats.max_ms, stats.sum_ms), (100, 300, 400));
    assert_eq!(
        stats.display_summary(),
        vec![
            "count=2  avg_ms=200  min_ms=100  max_ms=300",
            "          avg_rows=2,000,000  min_rows=1,000,000  max_rows=3,000,001",
            "          avg_bytes=1,024  min_bytes=0  max_bytes=2,048",
        ]
    );
    let analyzer = RoutineLoadPerformanceAnalyzer;
    assert_eq!(analyzer.separator(&vec![4, 2, 10, 13, 5]), "------+----+------------+---------------+-------");
    let cells: Vec<String> = ["Time", "ms", "loadedRows", "receivedBytes", "txnId"].iter().map(|s| s.to_string()).collect();
    assert_eq!(
        analyzer.print_table(&cells, &vec![8, 4, 10, 13, 5]),
        format!(" {:<8} | {:>4} | {:>10} | {:>13} | {:<5}", "Time", "ms", "loadedRows", "receivedBytes", "txnId")
    );
}

#[test]
fn traffic_is_summed_by_minute() {
    assert_eq!(second_of_day(0), 0);
    assert_eq!(second_of_day(86_399), 86_399);
    assert_eq!(second_of_day(86_400), 0);
    assert_eq!(second_of_day(-1), 86_399);
    assert_eq!(second_of_day(i64::MIN), (i64::MIN.rem_euclid(86_400)) as u32);
    assert_eq!(second_of_day(i64::MAX), (i64::MAX.rem_euclid(86_400)) as u32);
    assert_eq!(minute_of_day(1_754_059_582), 14 * 60 + 46);
    assert_eq!(minute_label(14 * 60 + 46), "14:46");
    assert_eq!(minute_label(0), "00:00");
    assert_eq!(minute_label(9 * 60 + 5), "09:05");
    let monitor = RoutineLoadTrafficMonitor;
    let entries = vec![
        entry(1_754_059_582, Some(10), None),
        entry(1_754_059_500, Some(5), None),
        entry(1_754_059_599, None, None),
        entry(1_754_059_560, Some(7), None),
        entry(1_754_059_582 + 86_400, Some(1), None),
    ];
    let per_minute = monitor.aggregate_per_minute(&entries);
    assert_eq!(per_minute, vec![(14 * 60 + 45, 5), (14 * 60 + 46, 18)]);
    assert_eq!(
        monitor.display_traffic_results(&per_minute),
        vec![
            "".to_string(),
            "Per-minute loadedRows (ascending time)".to_string(),
            "-".repeat(40),
            "14:45 loadedRows=5".to_string(),
            "14:46 loadedRows=18".to_string(),
            "-".repeat(40),
            "Total minutes: 2".to_string(),
            "Total loadedRows: 23".to_string(),
            "Average per minute: 11".to_string(),
        ]
    );
    assert_eq!(monitor.display_traffic_results(&Vec::new())[6], "Average per minute: 0");
}

fn row(partition: &str, progress: Option<&str>, lag: i64) -> LagRow {
    LagRow { partition: partition.to_string(), progress: progress.map(|p| p.to_string()), lag }
}

fn names(rows: &[LagRow]) -> Vec<String> {
    rows.iter().map(|r| format!("{}:{}", r.partition, r.lag)).collect()
}

#[test]
fn partitions_are_ordered_by_lag() {
    let lister = RoutineLoadJobLister;
    let progress = vec![
        ("0".to_string(), "100".to_string()),
        ("1".to_string(), "200".to_string()),
        ("2".to_string(), "300".to_string()),
    ];
    let lag = vec![("0".to_string(), 5), ("1".to_string(), 0), ("3".to_string(), 9), ("4".to_string(), 5)];
    let rows = lister.build_partition_rows(Some(&progress), Some(&lag));
    assert_eq!(names(&rows), vec!["3:9", "0:5", "4:5", "1:0", "2:0"]);
    assert_eq!(rows[0].progress, None);
    assert_eq!(rows[1].progress, Some("100".to_string()));
    assert_eq!(names(&lister.build_partition_rows(None, Some(&lag))), vec!["3:9", "0:5", "4:5", "1:0"]);
    assert_eq!(names(&lister.build_partition_rows(Some(&progress), None)), vec!["0:0", "1:0", "2:0"]);
    assert!(lister.build_partition_rows(None, None).is_empty());
    assert_eq!(names(&RoutineLoadJobLister::nonzero_rows(&rows)), vec!["3:9", "0:5", "4:5"]);

    let head = "┌─────────────┬─────────────┬─────────────┐\n│  Partition  │   Progress  │     Lag     │\n├─────────────┼─────────────┼─────────────┤\n";
    let foot = "└─────────────┴─────────────┴─────────────┘\n";
    let line = |p: &str, g: &str, l: i64| format!("│ {p:>11} │ {g:>11} │ {l:>11} │\n");
    let overview = lister.format_partitions_overview_nonzero_top_bottom(&rows, 2, 2);
    let expected = format!(
        "Top by lag:\n{head}{}{}{foot}Bottom by lag:\n{head}{}{}{foot}",
        line("3", "N/A", 9),
        line("0", "100", 5),
        line("0", "100", 5),
        line("4", "N/A", 5),
    );
    assert_eq!(overview, expected);
    let empty = lister.format_partitions_overview_nonzero_top_bottom(&vec![row("0", None, 0)], 30, 20);
    assert_eq!(
        empty,
        format!("Top by lag:\n{head}│               (no data)               │\n{foot}Bottom by lag:\n{head}{foot}")
    );
    let (path, content) = lister.write_full_partitions_file(
        &vec![row("3", None, 9), row("0", Some("100"), 5), row("7", None, -2)],
        "12345",
        "/out",
    );
    assert_eq!(path, "/out/routine_load_partitions_12345.txt");
    assert_eq!(content, "Partition\tProgress\tLag\n3\tN/A\t9\n0\t100\t5\n7\tN/A\t-2\n");
    assert_eq!(
        lister.write_full_partitions_file(&vec![], "1", "/out").1,
        "Partition\tProgress\tLag\n"
    );
    assert_eq!(
        RoutineLoadJobLister::partitions_file("/out", "12345"),
        "/out/routine_load_partitions_12345.txt"
    );
}

#[test]
fn jobs_are_listed_and_reported() {
    let lister = RoutineLoadJobLister;
    assert_eq!(RoutineLoadJobLister::jobs_query("sales"), "USE `sales`; SHOW ALL ROUTINE LOAD \\G");
    let jobs = lister.query_routine_load_jobs("sales", OUTPUT).unwrap();
    assert_eq!(jobs.len(), 2);
    assert_eq!(
        lister.query_routine_load_jobs("sales", "").unwrap_err().message(),
        "Tool execution failed: No Routine Load jobs found in database 'sales'"
    );
    let (lines, summary) = lister.display_jobs(&jobs);
    assert_eq!(summary, "Summary: 2 total jobs (1 running, 1 paused, 0 stopped)");
    assert_eq!(
        lines,
        vec![
            "".to_string(),
            "Routine Load Jobs in Database:".to_string(),
            "=".repeat(100),
            "ID: 12345 | Name: load_orders | State: RUNNING | CreateTime: 2025-08-01 10:00:00"
                .to_string(),
            "ID: 777 | Name: paused_job | State: PAUSED | CreateTime: ".to_string(),
            "-".repeat(100),
            "Total jobs found: 2".to_string(),
            "=".repeat(100),
        ]
    );
    assert_eq!(
        RoutineLoadJobLister::job_line(&jobs[0]),
        "ID: 12345 | Name: load_orders | State: RUNNING | CreateTime: 2025-08-01 10:00:00"
    );
    assert_eq!(RoutineLoadJobLister::count_in_state(&jobs, "STOPPED"), 0);
    let head = "Routine Load Job Selection Report\n=================================\n\nSelected Job ID: 12345\nJob Name: load_orders\nState: RUNNING\nDatabase: sales\nTable: orders\nCreate Time: 2025-08-01 10:00:00\n\nStatistics:\n  Loaded Rows: 1000\n  Error Rows: 2\n  Received Bytes: 1048576\n";
    let rows = lister.build_partition_rows(jobs[0].progress.as_ref(), jobs[0].lag.as_ref());
    assert_eq!(names(&rows), vec!["3:9", "0:5", "1:0", "2:0"]);
    let overview = lister.format_partitions_overview_nonzero_top_bottom(&rows, 30, 20);
    let saved = Ok("/out/routine_load_partitions_12345.txt".to_string());
    assert_eq!(
        lister.generate_selection_report(&jobs[0], &saved, "2025-08-02 00:00:00"),
        format!(
            "{head}\nPartitions Overview (non-zero lags only):\n{overview}non-zero-lag: 2, zero-lag: 2, total: 4\nFull partitions saved to: /out/routine_load_partitions_12345.txt\n\nSelection Time: 2025-08-02 00:00:00\n"
        )
    );
    let failed = Err(CliError::ToolExecutionFailed("Write failed: disk full".to_string()));
    assert!(lister
        .generate_selection_report(&jobs[0], &failed, "t")
        .contains("total: 4\nFailed to save full partitions file: Tool execution failed: Write failed: disk full\n\nSelection Time: t\n"));
    let paused = lister.generate_selection_report(&jobs[1], &saved, "2025-08-02 00:00:00");
    assert_eq!(
        paused,
        "Routine Load Job Selection Report\n=================================\n\nSelected Job ID: 777\nJob Name: paused_job\nState: PAUSED\nDatabase: \nTable: \nCreate Time: \nPause Time: 2025-08-01 11:00:00\n\nSelection Time: 2025-08-02 00:00:00\n"
    );
}

#[test]
fn a_failed_listing_asks_or_fails() {
    let lister = RoutineLoadJobLister;
    assert_eq!(lister.execute(&Ok(vec![])), ListingStep::Show);
    let failed = |text: &str| Err(CliError::ToolExecutionFailed(text.to_string()));
    assert_eq!(
        lister.execute(&failed("No Routine Load jobs found in database 'x'")),
        ListingStep::NoJobs
    );
    assert_eq!(
        lister.execute(&failed("ERROR 1049 (42000): Unknown database 'x'")),
        ListingStep::UnknownDatabase
    );
    assert_eq!(lister.execute(&failed("connection refused")), ListingStep::Fail);
    assert_eq!(
        lister.execute(&Err(CliError::InvalidInput("Unknown database".to_string()))),
        ListingStep::Fail
    );
    assert_eq!(
        no_jobs_notice("x"),
        vec![
            "No Routine Load jobs found in database 'x'",
            "This could mean:",
            "  - The database name is incorrect",
            "  - No Routine Load jobs have been created"
        ]
    );
    assert_eq!(
        unknown_db_notice("x"),
        vec!["Unknown database 'x'", "Please verify the database name or choose another one."]
    );
}

fn logs() -> Vec<Vec<String>> {
    vec![
        vec![
            "2025-08-01 14:46:22,123 INFO commitTxn job 12345 loadedRows=1000 receivedBytes=2048 taskExecutionTimeMs=1500 transactionId:987".to_string(),
            "noise".to_string(),
            "2025-08-01 14:45:00,000 commitTxn 12345 loadedRows=5 receivedBytes=1234567 taskExecutionTimeMs=20".to_string(),
        ],
        vec![],
        vec![
            "2025-08-01 14:46:22,999 commitTxn 12345 loadedRows=1000 receivedBytes=2048 taskExecutionTimeMs=1500".to_string(),
            "2025-08-01 13:00:00,000 commitTxn 12345 loadedRows=1".to_string(),
            "2025-08-01 14:46:00,000 commitTxn 777 loadedRows=3".to_string(),
        ],
    ]
}

#[test]
fn commits_are_shown_in_a_table_in_the_order_of_their_times() {
    let analyzer = RoutineLoadPerformanceAnalyzer;
    let found = analyzer.collect_and_parse_logs(&logs(), "12345").unwrap();
    assert_eq!(found.len(), 4);
    assert_eq!(found[3].loaded_rows, Some(1));
    assert_eq!(FeLogParser::new().scan_files(&logs(), "777").len(), 1);
    let line = format!("{}+{}+{}+{}+{}", "-".repeat(10), "-".repeat(6), "-".repeat(12), "-".repeat(15), "-".repeat(7));
    let row = |a: &str, b: &str, c: &str, d: &str, e: &str| {
        format!(" {:<8} | {:>4} | {:>10} | {:>13} | {:<5}", a, b, c, d, e)
    };
    let expected = vec![
        "\nPer-commit stats".to_string(),
        line.clone(),
        row("Time", "ms", "loadedRows", "receivedBytes", "txnId"),
        line.clone(),
        row("14:45:00", "20", "5", "1,234,567", "-"),
        row("14:46:22", "1500", "1,000", "2,048", "987"),
        line,
        "count=2  avg_ms=760  min_ms=20  max_ms=1500".to_string(),
        "          avg_rows=502  min_rows=5  max_rows=1,000".to_string(),
        "          avg_bytes=618,307  min_bytes=2,048  max_bytes=1,234,567".to_string(),
    ];
    assert_eq!(analyzer.execute(&logs(), "12345", 30).unwrap(), expected);
    assert_eq!(
        analyzer.execute(&logs(), "99999", 30).unwrap_err().message(),
        "Tool execution failed: No matching commit entries found in FE logs"
    );
    assert_eq!(
        analyzer.execute(&logs(), "12345", -1).unwrap_err().message(),
        "Tool execution failed: No matching commit entries found in FE logs"
    );
    assert_eq!(clock(1_754_059_582), "14:46:22");
    assert_eq!(clock(0), "00:00:00");
    assert_eq!(clock(-1), "23:59:59");
    let later_first = vec![
        entry(120, Some(1), Some("b")),
        entry(60, Some(2), Some("a")),
        entry(120, Some(3), Some("c")),
    ];
    let sorted = analyzer.sort_by_time(&later_first);
    let order: Vec<String> = sorted.iter().map(|e| e.transaction_id.clone().unwrap()).collect();
    assert_eq!(order, vec!["a", "b", "c"]);
    let wide = analyzer.display_performance_results(&vec![entry(0, None, Some("transaction-1"))]);
    assert_eq!(wide[1], format!("----------+-----+------------+---------------+{}", "-".repeat(15)));
    assert_eq!(wide[4], " 00:00:00 | 100 |          0 |            10 | transaction-1");
    assert_eq!(analyzer.display_performance_results(&Vec::new()).len(), 5);
}

#[test]
fn traffic_of_the_last_minutes_is_shown() {
    let monitor = RoutineLoadTrafficMonitor;
    assert_eq!(
        monitor.execute(&logs(), "12345", 60).unwrap(),
        vec![
            "".to_string(),
            "Per-minute loadedRows (ascending time)".to_string(),
            "-".repeat(40),
            "14:45 loadedRows=5".to_string(),
            "14:46 loadedRows=2000".to_string(),
            "-".repeat(40),
            "Total minutes: 2".to_string(),
            "Total loadedRows: 2005".to_string(),
            "Average per minute: 1002".to_string(),
        ]
    );
    assert_eq!(monitor.execute(&logs(), "12345", 120).unwrap()[3], "13:00 loadedRows=1");
    assert_eq!(
        monitor.execute(&logs(), "99999", 60).unwrap_err().message(),
        "Tool execution failed: No matching entries found"
    );
    assert_eq!(
        monitor.execute(&logs(), "12345", -1).unwrap_err().message(),
        "Tool execution failed: No entries in selected window"
    );
}
