use cloud_cli::config_loader::config_persister::{
    from_organized_config, from_persistent_config, get_config_file_paths, load_persisted_config,
    migrate_legacy_config, parse_legacy_config_with_mysql, persist_config, read_stamp,
    to_organized_config, to_persistent_config, try_next_after, write_stamp, CommonPaths,
    LegacyConfig,
    LegacyConfigWithMySQL, Metadata, Network, OrganizedConfig, ParsedShapes, Paths,
    PersistResult, PersistentConfig, Ports, ProcessInfo, Settings, StoredFile, WriteAttempt,
    WriteOutcome,
};
use cloud_cli::config_loader::{
    same_config, DorisConfig, Environment, MySQLConfig, Timestamp,
};

fn assert_same(a: &DorisConfig, b: &DorisConfig) {
    assert!(same_config(a, b), "{a:?}\n  is not\n{b:?}");
}

fn full_record(env: Environment) -> DorisConfig {
    DorisConfig {
        environment: env,
        install_dir: "/srv/doris/x".to_string(),
        conf_dir: "/etc/doris".to_string(),
        log_dir: "/var/log/doris".to_string(),
        jdk_path: "/usr/lib/jvm".to_string(),
        output_dir: "/tmp/out".to_string(),
        timeout_seconds: 120,
        no_progress_animation: true,
        process_pid: Some(11),
        process_command: Some("main command".to_string()),
        last_detected: Some(Timestamp { secs: 1_754_030_801, nanos: 378_000_000 }),
        be_port: Some(9060),
        brpc_port: Some(8060),
        heartbeat_service_port: Some(9050),
        webserver_port: Some(8040),
        be_process_pid: Some(22),
        be_process_command: Some("be command".to_string()),
        be_install_dir: Some("/srv/doris/be".to_string()),
        http_port: Some(8030),
        rpc_port: Some(9020),
        query_port: Some(9030),
        edit_log_port: Some(9010),
        cloud_http_port: Some(8031),
        meta_dir: Some("/data/meta".to_string()),
        fe_process_pid: Some(33),
        fe_process_command: Some("fe command".to_string()),
        fe_install_dir: Some("/srv/doris/fe".to_string()),
        priority_networks: Some("10.0.0.0/8".to_string()),
        meta_service_endpoint: Some("ms:5000".to_string()),
        mysql: Some(MySQLConfig { user: "root".to_string(), password: "secret".to_string() }),
    }
}

fn legacy(environment: &str) -> LegacyConfig {
    LegacyConfig {
        metadata: Metadata { environment: environment.to_string(), version: "0.0.1".to_string() },
        paths: Paths {
            install_dir: "/opt/doris/fe".to_string(),
            conf_dir: "/opt/doris/fe/conf".to_string(),
            log_dir: "/opt/doris/fe/log".to_string(),
            jdk_path: "/opt/jdk".to_string(),
            output_dir: "/tmp/out".to_string(),
            meta_dir: Some("/data/meta".to_string()),
        },
        ports: Ports {
            be_port: None,
            brpc_port: None,
            heartbeat_service_port: None,
            webserver_port: None,
            http_port: Some(8030),
            rpc_port: None,
            query_port: Some(9030),
            edit_log_port: None,
            cloud_http_port: None,
        },
        network: Network { priority_networks: None, meta_service_endpoint: None },
        settings: Settings { timeout_seconds: 60, no_progress_animation: false },
    }
}

fn read(current: Result<PersistentConfig, String>) -> ParsedShapes {
    ParsedShapes { current, flat: None, organized: None, common: None }
}

#[test]
fn written_record_is_read_back_whole() {
    for env in [Environment::FE, Environment::BE, Environment::Mixed, Environment::Unknown] {
        let record = full_record(env);
        let stored = to_persistent_config(&record);
        assert_eq!(stored.metadata.environment, env.label());
        assert_eq!(stored.process.last_detected, Some("2025-08-01T06:46:41.378+00:00".to_string()));
        let back = from_persistent_config(stored);
        assert_same(&back, &record);
    }
    let empty = DorisConfig::default();
    assert_same(&from_persistent_config(to_persistent_config(&empty)), &empty);
}

#[test]
fn migrated_legacy_record_survives_a_round_trip() {
    for name in ["FE", "BE", "FE + BE", "Unknown", "something else"] {
        let migrated = migrate_legacy_config(legacy(name)).convert_to();
        let written = to_persistent_config(&migrated);
        let loaded = load_persisted_config(Some("/home/op"), StoredFile::Read(read(Ok(written))))
            .unwrap();
        assert!(!loaded.migrated);
        assert!(loaded.warning.is_none());
        assert_same(&loaded.config, &migrated);
    }
}

#[test]
fn legacy_record_without_process_section_is_migrated_once() {
    let shapes = ParsedShapes {
        current: Err("TOML parse error at line 1, column 1\nmissing field `process`\n".to_string()),
        flat: Some(legacy("FE")),
        organized: None,
        common: None,
    };
    let first = load_persisted_config(Some("/home/op"), StoredFile::Read(shapes)).unwrap();
    assert!(first.migrated);
    assert!(first.warning.is_none());
    assert_eq!(first.config.environment, Environment::FE);
    assert_eq!(first.config.install_dir, "/opt/doris/fe");
    assert_eq!(first.config.http_port, Some(8030));
    assert_eq!(first.config.process_pid, None);
    assert_eq!(first.config.last_detected, None);

    let rewritten = to_persistent_config(&first.config);
    assert_eq!(rewritten.process.pid, None);
    assert_eq!(rewritten.process.command, None);
    assert_eq!(rewritten.process.fe_process_pid, None);
    let second =
        load_persisted_config(Some("/home/op"), StoredFile::Read(read(Ok(rewritten)))).unwrap();
    assert!(!second.migrated);
    assert_same(&second.config, &first.config);
}

fn organized(environment: &str) -> OrganizedConfig {
    let mut record = full_record(Environment::from_label(environment));
    record.install_dir = "/srv/doris/be".to_string();
    to_organized_config(&record)
}

#[test]
fn older_layouts_are_tried_oldest_first() {
    let complaint = || Err("missing field `ports`".to_string());
    let common = LegacyConfigWithMySQL {
        metadata: Metadata { environment: "BE".to_string(), version: "0.0.2".to_string() },
        paths: CommonPaths { jdk_path: "/j".to_string(), output_dir: "/o".to_string() },
        network: Network { priority_networks: Some("n".to_string()), meta_service_endpoint: None },
        settings: Settings { timeout_seconds: 9, no_progress_animation: true },
        process: ProcessInfo {
            pid: Some(5),
            command: Some("c".to_string()),
            last_detected: Some("not a date".to_string()),
            be_process_pid: None,
            be_process_command: None,
            be_install_dir: None,
            fe_process_pid: Some(6),
            fe_process_command: None,
            fe_install_dir: Some("/fe".to_string()),
        },
        mysql: None,
    };
    let by_role = load_persisted_config(
        Some("/home/op"),
        StoredFile::Read(ParsedShapes {
            current: complaint(),
            flat: None,
            organized: Some(organized("FE + BE")),
            common: Some(common),
        }),
    )
    .unwrap();
    assert!(by_role.migrated);
    assert_eq!(by_role.config.environment, Environment::Mixed);
    assert_eq!(by_role.config.install_dir, "/srv/doris/be");
    assert_eq!(by_role.config.be_port, Some(9060));

    let mut bare = organized("Unknown");
    bare.fe = None;
    bare.be = None;
    let common = LegacyConfigWithMySQL {
        metadata: Metadata { environment: "BE".to_string(), version: "0.0.2".to_string() },
        paths: CommonPaths { jdk_path: "/j".to_string(), output_dir: "/o".to_string() },
        network: Network { priority_networks: Some("n".to_string()), meta_service_endpoint: None },
        settings: Settings { timeout_seconds: 9, no_progress_animation: true },
        process: ProcessInfo {
            pid: Some(5),
            command: Some("c".to_string()),
            last_detected: Some("not a date".to_string()),
            be_process_pid: None,
            be_process_command: None,
            be_install_dir: None,
            fe_process_pid: Some(6),
            fe_process_command: None,
            fe_install_dir: Some("/fe".to_string()),
        },
        mysql: None,
    };
    let shared_only = load_persisted_config(
        Some("/home/op"),
        StoredFile::Read(ParsedShapes {
            current: complaint(),
            flat: None,
            organized: Some(bare),
            common: Some(common),
        }),
    )
    .unwrap();
    assert!(shared_only.migrated);
    assert_eq!(shared_only.config.environment, Environment::BE);
    assert_eq!(shared_only.config.install_dir, "/opt/selectdb");
    assert_eq!(shared_only.config.jdk_path, "/j");
    assert_eq!(shared_only.config.timeout_seconds, 9);
    assert_eq!(shared_only.config.process_pid, Some(5));
    assert_eq!(shared_only.config.last_detected, None);
    assert_eq!(shared_only.config.fe_install_dir, Some("/fe".to_string()));
    assert_eq!(shared_only.config.be_port, None);

    let flat_wins = load_persisted_config(
        Some("/home/op"),
        StoredFile::Read(ParsedShapes {
            current: complaint(),
            flat: Some(legacy("FE")),
            organized: Some(organized("BE")),
            common: None,
        }),
    )
    .unwrap();
    assert_eq!(flat_wins.config.environment, Environment::FE);
}

#[test]
fn unusable_file_gives_the_default_record_and_a_warning() {
    let syntax = load_persisted_config(
        Some("/home/op"),
        StoredFile::Read(ParsedShapes {
            current: Err("expected `=`".to_string()),
            flat: Some(legacy("FE")),
            organized: None,
            common: None,
        }),
    )
    .unwrap();
    assert!(!syntax.migrated);
    assert_same(&syntax.config, &DorisConfig::default());
    assert_eq!(
        syntax.warning,
        Some(
            "Failed to parse config file /home/op/.config/cloud-cli/config.toml: expected `=`"
                .to_string()
        )
    );
    let no_layout = load_persisted_config(
        Some("/home/op"),
        StoredFile::Read(read(Err("missing field `metadata`".to_string()))),
    )
    .unwrap();
    assert!(!no_layout.migrated);
    assert_same(&no_layout.config, &DorisConfig::default());
    assert!(no_layout.warning.is_some());

    let unreadable =
        load_persisted_config(Some("/home/op"), StoredFile::Unreadable("denied".to_string()))
            .unwrap();
    assert_eq!(
        unreadable.warning,
        Some("Failed to read config file /home/op/.config/cloud-cli/config.toml: denied".to_string())
    );
    let absent = load_persisted_config(Some("/home/op"), StoredFile::Absent).unwrap();
    assert!(absent.warning.is_none());
    assert_same(&absent.config, &DorisConfig::default());
}

#[test]
fn no_home_directory_is_the_one_hard_failure() {
    let err = load_persisted_config(None, StoredFile::Absent).unwrap_err();
    assert_eq!(
        err.message(),
        "Configuration error: Could not determine user home directory for config path"
    );
    assert!(get_config_file_paths(None).is_err());
    assert_eq!(
        get_config_file_paths(Some("/home/op")).unwrap(),
        vec!["/home/op/.config/cloud-cli/config.toml".to_string()]
    );
}

#[test]
fn layout_by_role_takes_the_role_sections() {
    let mut record = full_record(Environment::FE);
    record.fe_install_dir = None;
    let stored = to_organized_config(&record);
    let fe = stored.fe.as_ref().unwrap();
    assert!(stored.be.is_none());
    assert_eq!(fe.install_dir, "/srv/doris/x");
    assert_eq!(fe.conf_dir, "/srv/doris/x/conf");
    assert_eq!(fe.log_dir, "/srv/doris/x/log");
    assert_eq!(fe.process_pid, Some(11));
    assert_eq!(fe.process_command, Some("main command".to_string()));
    assert_eq!(fe.ports.http_port, Some(8030));
    assert_eq!(stored.paths.jdk_path, "/usr/lib/jvm");
    assert_eq!(stored.metadata.environment, "FE");

    let back = from_organized_config(&stored);
    assert_eq!(back.environment, Environment::FE);
    assert_eq!(back.install_dir, "/srv/doris/x");
    assert_eq!(back.conf_dir, "/srv/doris/x/conf");
    assert_eq!(back.fe_process_pid, Some(11));
    assert_eq!(back.fe_install_dir, Some("/srv/doris/x".to_string()));
    assert_eq!(back.be_port, None);
    assert_eq!(back.process_pid, Some(11));
    let again = from_organized_config(&to_organized_config(&back));
    assert_same(&again, &back);

    let mixed = to_organized_config(&full_record(Environment::Mixed));
    assert_eq!(mixed.fe.as_ref().unwrap().process_pid, Some(33));
    assert_eq!(mixed.be.as_ref().unwrap().process_pid, Some(22));
    assert_eq!(mixed.be.as_ref().unwrap().install_dir, "/srv/doris/be");
    let from_mixed = from_organized_config(&mixed);
    assert_eq!(from_mixed.install_dir, "/srv/doris/be");
    assert_eq!(from_mixed.conf_dir, "/srv/doris/be/conf");

    let unknown = to_organized_config(&full_record(Environment::Unknown));
    assert!(unknown.fe.is_none() && unknown.be.is_none());
    assert_eq!(from_organized_config(&unknown).install_dir, "");
}

#[test]
fn shared_sections_alone_give_assumed_directories() {
    let stored = LegacyConfigWithMySQL {
        metadata: Metadata { environment: "FE + BE".to_string(), version: "1".to_string() },
        paths: CommonPaths { jdk_path: "/j".to_string(), output_dir: "/o".to_string() },
        network: Network { priority_networks: None, meta_service_endpoint: Some("e".to_string()) },
        settings: Settings { timeout_seconds: 1, no_progress_animation: false },
        process: ProcessInfo {
            pid: None,
            command: None,
            last_detected: Some("2024-01-01T08:00:00+08:00".to_string()),
            be_process_pid: Some(2),
            be_process_command: Some("b".to_string()),
            be_install_dir: Some("/b".to_string()),
            fe_process_pid: None,
            fe_process_command: None,
            fe_install_dir: None,
        },
        mysql: Some(MySQLConfig { user: "u".to_string(), password: "p".to_string() }),
    };
    let record = parse_legacy_config_with_mysql(&stored);
    assert_eq!(record.environment, Environment::Mixed);
    assert_eq!(record.install_dir, "/opt/selectdb");
    assert_eq!(record.conf_dir, "/opt/selectdb/conf");
    assert_eq!(record.log_dir, "/opt/selectdb/log");
    assert_eq!(record.last_detected, Some(Timestamp { secs: 1_704_067_200, nanos: 0 }));
    assert_eq!(record.be_process_pid, Some(2));
    assert_eq!(record.meta_service_endpoint, Some("e".to_string()));
    assert_eq!(record.mysql.unwrap().user, "u");
}

#[test]
fn times_are_written_and_read_by_the_date_library() {
    let epoch = Some(Timestamp { secs: 0, nanos: 0 });
    assert_eq!(write_stamp(&epoch), Some("1970-01-01T00:00:00+00:00".to_string()));
    assert_eq!(write_stamp(&None), None);
    assert_eq!(write_stamp(&Some(Timestamp { secs: i64::MAX, nanos: 0 })), None);
    assert_eq!(
        read_stamp(&Some("1996-12-19T16:39:57-08:00".to_string())),
        Some(Timestamp { secs: 851_042_397, nanos: 0 })
    );
    assert_eq!(read_stamp(&Some("1970-01-01T00:00:00+00:00".to_string())), epoch);
    assert_eq!(read_stamp(&Some("yesterday".to_string())), None);
    assert_eq!(read_stamp(&None), None);
}

fn attempt(path: &str, outcome: WriteOutcome) -> WriteAttempt {
    WriteAttempt { path: path.to_string(), outcome }
}

#[test]
fn persisting_is_summed_up() {
    assert!(!try_next_after(&attempt("/a", WriteOutcome::Written)));
    assert!(try_next_after(&attempt("/a", WriteOutcome::NotWritable)));
    assert!(try_next_after(&attempt("/a", WriteOutcome::WriteFailed("full".to_string()))));
    match persist_config(&vec![attempt("/a/config.toml", WriteOutcome::Written)]).unwrap() {
        PersistResult::Success(p) => assert_eq!(p, "/a/config.toml"),
        other => panic!("{other:?}"),
    }
    let later = persist_config(&vec![
        attempt("/a/config.toml", WriteOutcome::NotWritable),
        attempt("/b/config.toml", WriteOutcome::Written),
        attempt("/c/config.toml", WriteOutcome::Written),
    ])
    .unwrap();
    assert!(later.is_success());
    match later {
        PersistResult::PartialSuccess(p, errors) => {
            assert_eq!(p, "/b/config.toml");
            assert_eq!(
                errors,
                vec![("/a/config.toml".to_string(), "No write permission".to_string())]
            );
        }
        other => panic!("{other:?}"),
    }
    let failed = persist_config(&vec![
        attempt("/a/config.toml", WriteOutcome::DirectoryFailed("denied".to_string())),
        attempt("/b/config.toml", WriteOutcome::CreateFailed("full".to_string())),
        attempt("/c/config.toml", WriteOutcome::WriteFailed("broken".to_string())),
    ])
    .unwrap();
    assert!(!failed.is_success());
    match failed {
        PersistResult::AllFailed(errors) => {
            assert_eq!(errors.len(), 3);
            assert_eq!(
                errors[0].1,
                "Failed to create directory: Configuration error: Failed to create directory /a: denied"
            );
            assert_eq!(errors[1].1, "Create file error: full");
            assert_eq!(errors[2].1, "Write error: broken");
        }
        other => panic!("{other:?}"),
    }
    assert_eq!(
        persist_config(&Vec::new()).unwrap_err().message(),
        "Configuration error: No valid paths to persist config"
    );
}
