use cloud_cli::tools::fe::table_info::browser::{
    build_partitions_table, create_string_selector, generate_report_content, indexes_line,
    prompt_next_action, render_batch_summary, save_reports_txt, select_database,
    select_database_or_bulk, select_table_or_bulk, table_list_title, truncate,
    DatabaseSelection, NextAction, TableSelection,
};
use cloud_cli::tools::fe::table_info::ops::{
    fetch_and_parse_all, parse_bucket_count, parse_column_list, parse_create_table,
    parse_indexes_from_create, parse_partitions, partition_rows,
};
use cloud_cli::tools::fe::table_info::sql::{
    query_database_list, query_partitions, query_show_create, query_table_list, MySqlExecutor,
    ResultSet,
};
use cloud_cli::tools::fe::table_info::{
    assemble_report, BucketCount, BucketingSpec, ColumnDef, CreateTableParsed, FeTableInfoTool,
    IndexInfo, PartitionStat, TableIdentity, TableInfoReport, TableModel,
    TableStatsFromPartitions,
};
use cloud_cli::config_loader::DorisConfig;
use cloud_cli::error::CliError;

const DDL: &str = r#"CREATE TABLE `orders` (
  `id` bigint NOT NULL,
  `day` date NOT NULL,
  `note` varchar(64) NULL,
  INDEX idx_note (`note`) USING inverted PROPERTIES("parser" = "english"),
  INDEX `idx_day` (`day`, `id`) USING BITMAP
) ENGINE=OLAP
UNIQUE KEY(`id`, `day`)
DISTRIBUTED BY HASH(`id`, `day`) BUCKETS 16
PROPERTIES (
"bloom_filter_columns" = "note, id",
"enable_unique_key_merge_on_write" = "true"
);"#;

#[test]
fn statement_tells_model_keys_and_buckets() {
    let parsed = parse_create_table(DDL).unwrap();
    assert_eq!(parsed.model, TableModel::UniqueKey);
    assert_eq!(parsed.key_columns, vec!["id", "day"]);
    assert_eq!(parsed.merge_on_write, Some(true));
    match parsed.bucketing {
        BucketingSpec::Hash { columns, buckets } => {
            assert_eq!(columns, vec!["id", "day"]);
            assert_eq!(buckets, BucketCount::Fixed(16));
        }
        other => panic!("{other:?}"),
    }
    let random = parse_create_table(
        "CREATE TABLE t (a int) DUPLICATE KEY(`a`) DISTRIBUTED BY RANDOM BUCKETS AUTO",
    )
    .unwrap();
    assert_eq!(random.model, TableModel::DuplicateKey);
    assert_eq!(random.merge_on_write, None);
    assert!(matches!(random.bucketing, BucketingSpec::Random { buckets: BucketCount::Auto }));
    let aggregate = parse_create_table("AGGREGATE KEY(k) merge-on-write\" = \"true\"").unwrap();
    assert_eq!(aggregate.model, TableModel::AggregateKey);
    assert_eq!(aggregate.key_columns, vec!["k"]);
    assert_eq!(aggregate.merge_on_write, None);
    match aggregate.bucketing {
        BucketingSpec::Hash { columns, buckets } => {
            assert!(columns.is_empty());
            assert_eq!(buckets, BucketCount::Auto);
        }
        other => panic!("{other:?}"),
    }
    let off = parse_create_table("UNIQUE KEY(`a`) \"Merge-On-Write\" = \"false\"").unwrap();
    assert_eq!(off.merge_on_write, Some(false));
    let untold = parse_create_table("unique key(a) UNIQUE KEY (`a`)").unwrap();
    assert_eq!(untold.model, TableModel::UniqueKey);
    assert_eq!(untold.key_columns, vec!["a"]);
    assert_eq!(untold.merge_on_write, None);
}

#[test]
fn lists_and_counts_are_read() {
    assert_eq!(parse_column_list(" `a`, b ,, `` ,`c d` "), vec!["a", "b", "c d"]);
    assert!(parse_column_list("").is_empty());
    assert_eq!(parse_bucket_count("auto"), BucketCount::Auto);
    assert_eq!(parse_bucket_count("AUTO"), BucketCount::Auto);
    assert_eq!(parse_bucket_count("32"), BucketCount::Fixed(32));
    assert_eq!(parse_bucket_count("many"), BucketCount::Auto);
    assert_eq!(parse_bucket_count("4294967296"), BucketCount::Auto);
}

#[test]
fn indexes_are_read_from_the_statement() {
    let indexes = parse_indexes_from_create(DDL);
    assert_eq!(indexes.len(), 3);
    assert_eq!(indexes[0].name, "idx_note");
    assert_eq!(indexes[0].columns, vec!["note"]);
    assert_eq!(indexes[0].index_type, "INVERTED");
    assert_eq!(indexes[1].name, "idx_day");
    assert_eq!(indexes[1].columns, vec!["day", "id"]);
    assert_eq!(indexes[1].index_type, "BITMAP");
    assert_eq!(indexes[2].name, "bloom_filter(note,id)");
    assert_eq!(indexes[2].columns, vec!["note", "id"]);
    assert_eq!(indexes[2].index_type, "BLOOM_FILTER");
    assert!(parse_indexes_from_create("CREATE TABLE t (a int)").is_empty());
    assert!(parse_indexes_from_create("\"bloom_filter_columns\" = \" , \"").is_empty());
    assert_eq!(indexes_line(&indexes), "idx_note(INVERTED), idx_day(BITMAP), bloom_filter(note,id)(BLOOM_FILTER)");
    assert_eq!(indexes_line(&Vec::new()), "None");
}

fn partition_line(name: &str, buckets: &str, size: &str, extra: usize) -> String {
    let mut cells: Vec<String> = (0..15 + extra).map(|i| format!("c{i}")).collect();
    cells[1] = format!(" {name} ");
    cells[8] = buckets.to_string();
    cells[14] = size.to_string();
    cells.join("\t")
}

#[test]
fn partitions_are_read_from_rows() {
    let mut v3 = partition_line("p3", "8", "1.000 KB", 7);
    v3 = v3.rsplit_once('\t').unwrap().0.to_string() + "\t12345  ";
    let output = format!(
        "{}\n\n{}\ntoo\tshort\n{}\n{}\n",
        partition_line("p1", "16", "6.599 MB", 0),
        partition_line("p2", "x", "0.000 ", 3),
        v3,
        partition_line("p4", "16", "2 GB", 0),
    );
    let rows = ResultSet(output);
    let read = partition_rows(&rows);
    assert_eq!(read.len(), 4);
    assert_eq!(read[0].name, "p1");
    assert_eq!(read[0].buckets, 16);
    assert_eq!(read[0].data_size, "6.599 MB");
    assert_eq!(read[0].rows, 0);
    assert_eq!(read[1].buckets, 0);
    assert_eq!(read[1].data_size, "0.000");
    assert_eq!(read[2].rows, 12345);

    let stats = parse_partitions(&rows, &vec![6919553, 0, 1024]).unwrap();
    assert_eq!(stats.partitions.len(), 4);
    assert_eq!(stats.partitions[0].size_bytes, 6919553);
    assert_eq!(stats.partitions[0].avg_bucket_size_bytes, Some(6919553 / 16));
    assert_eq!(stats.partitions[1].avg_bucket_size_bytes, None);
    assert_eq!(stats.partitions[2].avg_bucket_size_bytes, Some(128));
    assert_eq!(stats.partitions[3].size_bytes, 0);
    assert_eq!(stats.partitions[3].avg_bucket_size_bytes, Some(0));
    assert_eq!(stats.total_buckets, None);

    let same = ResultSet(format!(
        "{}\n{}\n{}\n",
        partition_line("a", "0", "1 B", 0),
        partition_line("b", "4", "1 B", 0),
        partition_line("c", "4", "1 B", 0)
    ));
    assert_eq!(parse_partitions(&same, &Vec::new()).unwrap().total_buckets, Some(4));
    assert_eq!(parse_partitions(&ResultSet(String::new()), &Vec::new()).unwrap().total_buckets, None);

    let all = fetch_and_parse_all(&ResultSet(DDL.to_string()), &same, &vec![1, 2, 3]).unwrap();
    assert_eq!(all.0.key_columns, vec!["id", "day"]);
    assert_eq!(all.1.partitions[1].size_bytes, 2);
    assert!(all.2.is_empty());
    assert_eq!(all.3.len(), 3);
}

#[test]
fn queries_quote_their_names() {
    assert_eq!(query_database_list(), "SHOW DATABASES;");
    let plain = "SELECT table_schema, table_name FROM information_schema.tables WHERE TABLE_TYPE = 'BASE TABLE' AND ENGINE = 'Doris' AND TABLE_SCHEMA NOT IN ('__internal_schema', 'information_schema', 'mysql')";
    assert_eq!(query_table_list(None), format!("{plain} ORDER BY table_schema, table_name;"));
    assert_eq!(
        query_table_list(Some("it's")),
        format!("{plain} AND table_schema = 'it''s' ORDER BY table_schema, table_name;")
    );
    let ident = TableIdentity { schema: "s`x".to_string(), name: "t".to_string() };
    assert_eq!(query_show_create(&ident), "SHOW CREATE TABLE `s``x`.`t`;");
    assert_eq!(query_partitions(&ident), "SHOW PARTITIONS FROM `s``x`.`t`;");
    let executor = MySqlExecutor::from_config(DorisConfig::default());
    assert_eq!(executor.config().install_dir, "/opt/selectdb");
    assert_eq!(executor.query(Ok("rows".to_string())).unwrap().0, "rows");
    assert!(executor.query(Err(CliError::GracefulExit)).is_err());
}

#[test]
fn tables_and_databases_are_listed() {
    let tables = FeTableInfoTool::list_tables("db1\tt1\n\n  db2\tt2\textra \nnotab\n\tempty_schema\n");
    let names: Vec<String> = tables.iter().map(|t| format!("{}.{}", t.schema, t.name)).collect();
    assert_eq!(names, vec!["db1.t1", "db2.t2"]);
    assert_eq!(
        FeTableInfoTool::list_databases("b\ninformation_schema\n a \nmysql\n__internal_schema\n\n"),
        vec!["a", "b"]
    );
    let only_db1 = FeTableInfoTool::collect_all_in_db(tables, "db1");
    assert_eq!(only_db1.len(), 1);
    for (total, expected) in [(0, 1), (1, 1), (2, 2), (3, 3), (31, 31), (32, 32), (33, 32), (usize::MAX, 32)] {
        assert_eq!(FeTableInfoTool::suggest_concurrency(total), expected);
    }
}

fn partition(name: &str, size: u64, rows: u64, buckets: u32) -> PartitionStat {
    PartitionStat { name: name.to_string(), size_bytes: size, rows, buckets, avg_bucket_size_bytes: None }
}

fn report() -> TableInfoReport {
    let create = CreateTableParsed {
        model: TableModel::DuplicateKey,
        key_columns: vec!["a".to_string(), "b".to_string()],
        bucketing: BucketingSpec::Hash { columns: vec!["a".to_string()], buckets: BucketCount::Fixed(8) },
        merge_on_write: Some(true),
    };
    let parts = TableStatsFromPartitions {
        partitions: vec![
            partition("p20250801", 6919553, 1000, 8),
            partition("a_partition_with_a_long_name", 1 << 31, 0, 16),
        ],
        total_buckets: None,
    };
    let cols: Vec<ColumnDef> = Vec::new();
    let idxs = vec![IndexInfo {
        name: "i".to_string(),
        columns: vec!["a".to_string()],
        index_type: "INVERTED".to_string(),
    }];
    assemble_report(
        &TableIdentity { schema: "db".to_string(), name: "t".to_string() },
        &create,
        &parts,
        &cols,
        &idxs,
    )
}

#[test]
fn report_is_assembled_and_written() {
    let r = report();
    assert_eq!(r.merge_on_write, None);
    assert_eq!(r.bucket, BucketCount::Fixed(8));
    assert_eq!(r.bucketing_key, Some(vec!["a".to_string()]));
    assert_eq!(r.partitions.len(), 2);
    let rule = |l: &str, m: &str, e: &str| {
        format!("{l}{}{m}{}{m}{}{m}{}{e}\n", "─".repeat(20), "─".repeat(12), "─".repeat(14), "─".repeat(10))
    };
    let table = format!(
        "{}│ {:<18} │ {:>10} │ {:>12} │ {:>8} │\n{}│ {:<18} │ {:>10} │ {:>12} │ {:>8} │\n│ {:<18} │ {:>10} │ {:>12} │ {:>8} │\n{}",
        rule("┌", "┬", "┐"),
        "Partition", "Size", "Rows", "Buckets",
        rule("├", "┼", "┤"),
        "p20250801", "6.599 MB", 1000, 8,
        "a_partition_with_…", "2.000 GB", 0, 16,
        rule("└", "┴", "┘"),
    );
    assert_eq!(build_partitions_table(&r.partitions), table);
    let expected = format!(
        "\n{}\nTable Info: db.t\n{}\n  {:<18} DuplicateKey\n  {:<18} a, b\n  {:<18} a\n  {:<18} 8\n  {:<18} -\n  {:<18} i(INVERTED)\n\nPartitions:\n{}Total partitions: 2\n{}",
        "=".repeat(80),
        "-".repeat(80),
        "Table Type:",
        "Key Columns:",
        "Bucketing Key:",
        "Bucket Count:",
        "Merge-on-Write:",
        "Indexes:",
        table,
        "=".repeat(80),
    );
    assert_eq!(generate_report_content(&r), expected);
    assert_eq!(truncate("short", 18), "short");
    assert_eq!(truncate("exactly_eighteen_c", 18), "exactly_eighteen_c");
    assert_eq!(truncate("more_than_eighteen_c", 18), "more_than_eightee…");
    assert_eq!(truncate("abc", 0), "…");
    assert_eq!(
        render_batch_summary("<all_dbs>", 3),
        vec![
            "".to_string(),
            "=".repeat(80),
            "Batch collection completed for <all_dbs>".to_string(),
            "Collected tables: 3".to_string(),
            "=".repeat(80)
        ]
    );
    assert_eq!(save_reports_txt("/out", None), "/out/table-info/all_databases_table_info.txt");
    assert_eq!(save_reports_txt("/out", Some(&r.ident)), "/out/table-info/db/t.txt");
}

#[test]
fn choices_are_understood() {
    let items = vec!["a".to_string(), "b".to_string()];
    assert_eq!(
        create_string_selector(items.clone(), true, "[All Databases]").unwrap(),
        vec!["a", "b", "[All Databases]"]
    );
    assert_eq!(create_string_selector(items, false, "x").unwrap(), vec!["a", "b"]);
    assert_eq!(
        create_string_selector(Vec::new(), true, "x").unwrap_err().message(),
        "Tool execution failed: no items"
    );
    assert!(matches!(select_database_or_bulk("[All Databases]".to_string()), DatabaseSelection::AllDbs));
    match select_database_or_bulk("db".to_string()) {
        DatabaseSelection::Single(db) => assert_eq!(db, "db"),
        other => panic!("{other:?}"),
    }
    match select_table_or_bulk("db", "t".to_string()) {
        TableSelection::Single(ident) => assert_eq!((ident.schema, ident.name), ("db".to_string(), "t".to_string())),
        other => panic!("{other:?}"),
    }
    match select_table_or_bulk("db", "[All tables in this DB]".to_string()) {
        TableSelection::AllInDb(db) => assert_eq!(db, "db"),
        other => panic!("{other:?}"),
    }
    assert_eq!(select_database("db".to_string()).unwrap(), "db");
    assert_eq!(table_list_title("db"), "Select a table in db");
    assert_eq!(prompt_next_action("Analyze another table/database").unwrap(), NextAction::AnalyzeAnother);
    assert_eq!(prompt_next_action("Back to FE menu").unwrap(), NextAction::BackToFeMenu);
    assert_eq!(prompt_next_action("Exit").unwrap(), NextAction::ExitApp);
}
