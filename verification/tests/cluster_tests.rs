use plumise_agent::cluster::{
    can_distribute, clip, decode_mode, reconcile, register_url, registration_capabilities,
    registration_endpoint, registration_message, registration_outcome, relay_url, reported_ram_mb,
    ClusterAssignment, ModeDecision, OracleReply, RegisterError, RegisterResponse,
};
use plumise_agent::state::NodeMode;

fn assignment(mode: &str, peers: Option<Vec<&str>>) -> ClusterAssignment {
    ClusterAssignment {
        mode: mode.to_string(),
        cluster_id: Some("c-1".to_string()),
        rpc_port: 50052,
        rpc_peers: peers.map(|p| p.iter().map(|s| s.to_string()).collect()),
    }
}

#[test]
fn mode_names_decode() {
    assert_eq!(decode_mode("standalone"), Some(NodeMode::Standalone));
    assert_eq!(decode_mode("rpc-server"), Some(NodeMode::RpcServer));
    assert_eq!(decode_mode("coordinator"), Some(NodeMode::Coordinator));
    assert_eq!(decode_mode("Coordinator"), None);
    assert_eq!(decode_mode(""), None);
}

#[test]
fn coordinator_without_peers_waits() {
    let a = assignment("coordinator", Some(vec![]));
    assert!(matches!(reconcile(Some(&a), "auto"), ModeDecision::AwaitPeers));
    let b = assignment("coordinator", None);
    assert!(matches!(reconcile(Some(&b), "auto"), ModeDecision::AwaitPeers));
}

#[test]
fn coordinator_with_peers_relaunches() {
    let a = assignment("coordinator", Some(vec!["192.168.0.101:50052", "192.168.0.102:50052"]));
    match reconcile(Some(&a), "auto") {
        ModeDecision::Coordinator { peers, cluster_id } => {
            assert_eq!(peers, vec!["192.168.0.101:50052", "192.168.0.102:50052"]);
            assert_eq!(cluster_id, Some("c-1".to_string()));
        }
        other => panic!("unexpected decision {:?}", other),
    }
}

#[test]
fn worker_assignment_names_port_and_cluster() {
    let mut a = assignment("rpc-server", None);
    a.rpc_port = 50099;
    match reconcile(Some(&a), "auto") {
        ModeDecision::Worker { rpc_port, cluster_id } => {
            assert_eq!(rpc_port, 50099);
            assert_eq!(cluster_id, Some("c-1".to_string()));
        }
        other => panic!("unexpected decision {:?}", other),
    }
}

#[test]
fn forced_standalone_wins_over_assignment() {
    let a = assignment("coordinator", Some(vec!["h:1"]));
    assert!(matches!(reconcile(Some(&a), "standalone"), ModeDecision::Standalone));
    let b = assignment("rpc-server", None);
    assert!(matches!(reconcile(Some(&b), "standalone"), ModeDecision::Standalone));
}

#[test]
fn no_assignment_means_standalone() {
    assert!(matches!(reconcile(None, "auto"), ModeDecision::Standalone));
    let a = assignment("standalone", None);
    assert!(matches!(reconcile(Some(&a), "auto"), ModeDecision::Standalone));
}

#[test]
fn unknown_mode_changes_nothing() {
    let a = assignment("sharded", Some(vec!["h:1"]));
    assert!(matches!(reconcile(Some(&a), "auto"), ModeDecision::Unchanged));
}

#[test]
fn endpoint_and_capabilities() {
    assert_eq!(registration_endpoint("192.168.0.5", 18920), "http://192.168.0.5:18920");
    assert_eq!(registration_capabilities("qwen/qwen3-32b"), vec!["inference", "qwen/qwen3-32b"]);
}

#[test]
fn registration_message_keeps_field_order() {
    let text = registration_message("0xabc", "http://10.0.0.1:18920", "qwen/qwen3-32b", 1700000000);
    assert_eq!(
        text,
        "{\"address\":\"0xabc\",\"endpoint\":\"http://10.0.0.1:18920\",\"capabilities\":[\"inference\",\"qwen/qwen3-32b\"],\"timestamp\":1700000000}"
    );
}

#[test]
fn registration_message_escapes_strings() {
    let text = registration_message("a\"b", "e\\f", "m\nn", 0);
    assert_eq!(
        text,
        "{\"address\":\"a\\\"b\",\"endpoint\":\"e\\\\f\",\"capabilities\":[\"inference\",\"m\\nn\"],\"timestamp\":0}"
    );
    let parsed: serde_json::Value = serde_json::from_str(&text).unwrap();
    assert_eq!(parsed["address"].as_str(), Some("a\"b"));
    assert_eq!(parsed["capabilities"][1].as_str(), Some("m\nn"));
}

#[test]
fn register_url_drops_trailing_slashes() {
    assert_eq!(
        register_url("https://plug.plumise.com/oracle/"),
        "https://plug.plumise.com/oracle/api/nodes/register"
    );
    assert_eq!(register_url("http://h//"), "http://h/api/nodes/register");
    assert_eq!(register_url(""), "/api/nodes/register");
}

#[test]
fn relay_url_is_derived_from_oracle_url() {
    assert_eq!(relay_url("https://plug.plumise.com/oracle"), "wss://plug.plumise.com/ws/agent-relay");
    assert_eq!(relay_url("https://plug.plumise.com/oracle/"), "wss://plug.plumise.com/ws/agent-relay");
    assert_eq!(relay_url("http://localhost:3000"), "ws://localhost:3000/ws/agent-relay");
    assert_eq!(relay_url("http://h/oracle/oracle"), "ws://h/ws/agent-relay");
    assert_eq!(relay_url("ftp://h/x"), "ftp://h/x/ws/agent-relay");
}

#[test]
fn distribution_is_offered_unless_disabled() {
    assert!(can_distribute("auto"));
    assert!(can_distribute("standalone"));
    assert!(!can_distribute("disabled"));
}

#[test]
fn reported_ram_prefers_the_limit() {
    assert_eq!(reported_ram_mb(16, 65536), 16384);
    assert_eq!(reported_ram_mb(0, 65536), 65536);
    assert_eq!(reported_ram_mb(u32::MAX, 1), 4294967295u64 * 1024);
}

#[test]
fn clip_keeps_the_first_characters() {
    assert_eq!(clip("hello", 3), "hel");
    assert_eq!(clip("hello", 5), "hello");
    assert_eq!(clip("hello", 9), "hello");
    assert_eq!(clip("h\u{e9}llo", 2), "h\u{e9}");
}

#[test]
fn accepted_registration_gives_the_assignment() {
    let reply = OracleReply::Answered(RegisterResponse {
        success: true,
        message: "ok".to_string(),
        assignment: Some(assignment("coordinator", Some(vec!["h:1"]))),
    });
    let outcome = registration_outcome(reply).unwrap();
    assert_eq!(outcome.unwrap().mode, "coordinator");
    let none = OracleReply::Answered(RegisterResponse {
        success: true,
        message: String::new(),
        assignment: None,
    });
    assert!(registration_outcome(none).unwrap().is_none());
}

#[test]
fn declined_registration_is_a_rejection() {
    let reply = OracleReply::Answered(RegisterResponse {
        success: false,
        message: "bad signature".to_string(),
        assignment: None,
    });
    match registration_outcome(reply) {
        Err(RegisterError::Rejected { message }) => {
            assert_eq!(message, "Oracle registration rejected: bad signature")
        }
        other => panic!("unexpected outcome {:?}", other),
    }
}

#[test]
fn unreachable_and_refused_are_network_errors() {
    match registration_outcome(OracleReply::Unreachable("timed out".to_string())) {
        Err(e @ RegisterError::Network { .. }) => {
            assert_eq!(e.message(), "Oracle register request failed: timed out")
        }
        other => panic!("unexpected outcome {:?}", other),
    }
    let long_body = "x".repeat(400);
    match registration_outcome(OracleReply::Refused {
        status: "502 Bad Gateway".to_string(),
        body: long_body,
    }) {
        Err(RegisterError::Network { message }) => {
            assert_eq!(
                message,
                format!("Oracle register failed (502 Bad Gateway): {}", "x".repeat(300))
            )
        }
        other => panic!("unexpected outcome {:?}", other),
    }
    match registration_outcome(OracleReply::Unreadable("EOF".to_string())) {
        Err(RegisterError::Network { message }) => {
            assert_eq!(message, "Oracle response parse error: EOF")
        }
        other => panic!("unexpected outcome {:?}", other),
    }
}
