use cloud_cli::text::contains;
use cloud_cli::tools::mysql::cluster::{Backend, Frontend};
use cloud_cli::tools::mysql::parser::split_into_blocks;

#[test]
fn test_frontend_parse_from_real_output() {
    let block = r#"
*************************** 1. row ***************************
              Name: fe_94c2c212_b35b_4407_aa42_b208f5f63df2
              Host: 192.168.0.1
       EditLogPort: 9010
          HttpPort: 8030
         QueryPort: 9030
           RpcPort: 9020
ArrowFlightSqlPort: -1
              Role: FOLLOWER
          IsMaster: true
         ClusterId: 2133959080
              Join: true
             Alive: true
 ReplayedJournalId: 480298
     LastStartTime: 2025-07-31 18:06:19
     LastHeartbeat: 2025-08-01 14:47:21
          IsHelper: true
            ErrMsg: 
           Version: doris-3.0.2
  CurrentConnected: Yes
"#;

    let frontend = Frontend::parse_from_block(block);
    assert!(frontend.is_some());

    let fe = frontend.unwrap();
    assert_eq!(fe.name, "fe_94c2c212_b35b_4407_aa42_b208f5f63df2");
    assert_eq!(fe.host, "192.168.0.1");
    assert_eq!(fe.edit_log_port, 9010);
    assert_eq!(fe.http_port, 8030);
    assert_eq!(fe.query_port, 9030);
    assert_eq!(fe.rpc_port, 9020);
    assert_eq!(fe.role, "FOLLOWER");
    assert!(fe.is_master);
    assert_eq!(fe.cluster_id, "2133959080");
    assert!(fe.alive);
    assert_eq!(fe.version, "doris-3.0.2");
}

#[test]
fn test_backend_parse_from_real_output() {
    let block = r#"
*************************** 1. row ***************************
              BackendId: 1751558294712
                   Host: 192.168.10.2
          HeartbeatPort: 9050
                 BePort: 9060
               HttpPort: 8040
               BrpcPort: 8060
     ArrowFlightSqlPort: -1
          LastStartTime: 2025-08-01 14:46:17
          LastHeartbeat: 2025-08-01 14:47:11
                  Alive: true
   SystemDecommissioned: false
              TabletNum: 255
       DataUsedCapacity: 6.599 MB
      TrashUsedCapacity: 0.000 
          AvailCapacity: 489.820 GB
          TotalCapacity: 3.437 TB
                UsedPct: 86.08 %
         MaxDiskUsedPct: 86.08 %
     RemoteUsedCapacity: 0.000 
                    Tag: {"location" : "default"}
                 ErrMsg: 
                Version: doris-3.0.2
                 Status: {"lastSuccessReportTabletsTime":"2025-08-01 14:46:22","lastStreamLoadTime":-1,"isQueryDisabled":false,"isLoadDisabled":false,"isActive":true,"currentFragmentNum":0,"lastFragmentUpdateTime":1754030801378}
HeartbeatFailureCounter: 0
               NodeRole: mix
               CpuCores: 96
                 Memory: 375.81 GB
"#;

    let backend = Backend::parse_from_block(block);
    assert!(backend.is_some());

    let be = backend.unwrap();
    assert_eq!(be.backend_id, "1751558294712");
    assert_eq!(be.host, "192.168.10.2");
    assert_eq!(be.heartbeat_port, 9050);
    assert_eq!(be.be_port, 9060);
    assert_eq!(be.http_port, 8040);
    assert_eq!(be.brpc_port, 8060);
    assert!(be.alive);
    assert_eq!(be.version, "doris-3.0.2");
    assert!(be.status.contains("lastSuccessReportTabletsTime"));
    assert_eq!(be.node_role, "mix");
    assert!(be.tag.is_some());
    assert!(be.tag.unwrap().contains("location"));
}

#[test]
fn test_split_into_blocks() {
    let output = r#"
*************************** 1. row ***************************
              Name: fe_94c2c212_b35b_4407_aa42_b208f5f63df2
              Host: 192.168.0.1
       EditLogPort: 9010
          HttpPort: 8030
         QueryPort: 9030
           RpcPort: 9020
              Role: FOLLOWER
          IsMaster: true
         ClusterId: 2133959080
             Alive: true
           Version: doris-3.0.2
*************************** 2. row ***************************
              Name: fe_another_node
              Host: 192.168.0.2
       EditLogPort: 9010
          HttpPort: 8030
         QueryPort: 9030
           RpcPort: 9020
              Role: OBSERVER
          IsMaster: false
         ClusterId: 2133959080
             Alive: true
           Version: doris-3.0.2
"#;

    let blocks = split_into_blocks(output);
    assert_eq!(blocks.len(), 2);

    // Check first block contains expected content
    assert!(blocks[0].contains("fe_94c2c212_b35b_4407_aa42_b208f5f63df2"));
    assert!(blocks[0].contains("192.168.0.1"));
    assert!(blocks[0].contains("FOLLOWER"));

    // Check second block contains expected content
    assert!(blocks[1].contains("fe_another_node"));
    assert!(blocks[1].contains("192.168.0.2"));
    assert!(blocks[1].contains("OBSERVER"));
}

#[test]
fn tag_summary_keeps_the_location() {
    let tag = Backend::parse_tag_info("{\"location\" : \"default\"}");
    assert_eq!(tag, Some("{\"location\":\"default\"}".to_string()));
    assert!(contains("a location", "location"));
}
