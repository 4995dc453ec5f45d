use bllvm_governance::hasher::calculate_block_hash;
use bllvm_governance::webhook::{build_block_body, build_notification_body, build_proposal_created_data};
use bllvm_governance::{Action, Block, BlockHeader, Envelope, GovernanceError, GovernanceWebhookClient};

fn enabled_client() -> GovernanceWebhookClient {
    GovernanceWebhookClient::new(
        Some("http://localhost:9000/hook".to_string()),
        Some("node-1".to_string()),
    )
}

fn created_envelope() -> Envelope {
    Envelope::ProposalCreated {
        proposal_id: "abc123".to_string(),
        tier: "Gold".to_string(),
        author: "alice".to_string(),
        block_height: 100,
    }
}

fn sample_block() -> Block {
    Block {
        header: BlockHeader {
            version: 1,
            prev_block_hash: [0u8; 32],
            merkle_root: [0u8; 32],
            timestamp: 0,
            bits: 0,
            nonce: 0,
        },
        transactions: vec![vec![0xde, 0xad, 0xbe, 0xef], vec![0x00]],
    }
}

#[test]
fn disabled_client_always_skips() {
    let c = GovernanceWebhookClient::new(None, Some("node-1".to_string()));
    let envelopes = vec![
        created_envelope(),
        Envelope::ProposalVoted {
            proposal_id: "p".to_string(),
            voter: "v".to_string(),
            vote: "Yes".to_string(),
            block_height: 1,
        },
        Envelope::ProposalMerged {
            proposal_id: "p".to_string(),
            merged_at: 5,
            block_height: 6,
        },
        Envelope::NewBlock { block_hash: vec![9u8; 32], height: 10 },
        Envelope::EconomicNodeRegistered { node_id: "n".to_string(), block_height: 2 },
        Envelope::EconomicNodeVeto { node_id: "n".to_string(), block_height: 3 },
        Envelope::Other,
    ];
    for e in &envelopes {
        assert!(matches!(c.handle_event(e, 123), Action::Skip));
    }
    // the block-response path is a no-op too when disabled
    let b = sample_block();
    assert!(matches!(c.handle_block_response(Some(&b), 10), Action::Skip));
}

#[test]
fn proposal_created_payload_shape() {
    let c = GovernanceWebhookClient::new(Some("http://localhost:9000/hook".to_string()), None);
    let a = c.handle_event(&created_envelope(), 1234567890);
    match a {
        Action::Deliver { url, body } => {
            assert_eq!(url, "http://localhost:9000/hook");
            let text = String::from_utf8(body).unwrap();
            assert_eq!(
                text,
                "{\"event_type\":\"proposal_created\",\"data\":{\"proposal_id\":\"abc123\",\
                 \"tier\":\"Gold\",\"author\":\"alice\",\"block_height\":100},\
                 \"node_id\":null,\"timestamp\":1234567890}"
            );
            let v: serde_json::Value = serde_json::from_str(&text).unwrap();
            assert_eq!(v["event_type"], "proposal_created");
            assert_eq!(v["data"]["proposal_id"], "abc123");
            assert_eq!(v["data"]["tier"], "Gold");
            assert_eq!(v["data"]["author"], "alice");
            assert_eq!(v["data"]["block_height"], 100);
            assert!(v["node_id"].is_null());
            assert_eq!(v["timestamp"], 1234567890u64);
        }
        _ => panic!("expected a delivery"),
    }
}

#[test]
fn proposal_voted_payload_shape() {
    let c = enabled_client();
    let e = Envelope::ProposalVoted {
        proposal_id: "p-7".to_string(),
        voter: "bob".to_string(),
        vote: "No".to_string(),
        block_height: 42,
    };
    match c.handle_event(&e, 99) {
        Action::Deliver { url: _, body } => {
            let v: serde_json::Value = serde_json::from_slice(&body).unwrap();
            assert_eq!(v["event_type"], "proposal_voted");
            assert_eq!(v["data"]["proposal_id"], "p-7");
            assert_eq!(v["data"]["voter"], "bob");
            assert_eq!(v["data"]["vote"], "No");
            assert_eq!(v["data"]["block_height"], 42);
            assert_eq!(v["node_id"], "node-1");
            assert_eq!(v["timestamp"], 99);
        }
        _ => panic!("expected a delivery"),
    }
}

#[test]
fn proposal_merged_payload_shape() {
    let c = enabled_client();
    let e = Envelope::ProposalMerged {
        proposal_id: "p-8".to_string(),
        merged_at: 1111,
        block_height: 43,
    };
    match c.handle_event(&e, 100) {
        Action::Deliver { url: _, body } => {
            let v: serde_json::Value = serde_json::from_slice(&body).unwrap();
            assert_eq!(v["event_type"], "proposal_merged");
            assert_eq!(v["data"]["proposal_id"], "p-8");
            assert_eq!(v["data"]["merged_at"], 1111);
            assert_eq!(v["data"]["block_height"], 43);
        }
        _ => panic!("expected a delivery"),
    }
}

#[test]
fn ignored_events_skip() {
    let c = enabled_client();
    let e = Envelope::EconomicNodeRegistered { node_id: "n".to_string(), block_height: 1 };
    assert!(matches!(c.handle_event(&e, 5), Action::Skip));
    let e = Envelope::EconomicNodeVeto { node_id: "n".to_string(), block_height: 1 };
    assert!(matches!(c.handle_event(&e, 5), Action::Skip));
    assert!(matches!(c.handle_event(&Envelope::Other, 5), Action::Skip));
}

#[test]
fn new_block_queries_then_delivers() {
    let c = enabled_client();
    let e = Envelope::NewBlock { block_hash: vec![7u8; 32], height: 12 };
    let hash = match c.handle_event(&e, 5) {
        Action::QueryBlock { block_hash, height } => {
            assert_eq!(block_hash, vec![7u8; 32]);
            assert_eq!(height, 12);
            block_hash
        }
        _ => panic!("expected a host query"),
    };
    let _ = hash;
    let b = sample_block();
    match c.handle_block_response(Some(&b), 12) {
        Action::Deliver { url, body } => {
            assert_eq!(url, "http://localhost:9000/hook");
            let v: serde_json::Value = serde_json::from_slice(&body).unwrap();
            let expected_hash = hex::encode(calculate_block_hash(&b.header));
            assert_eq!(v["block_hash"], expected_hash.as_str());
            assert_eq!(v["block_height"], 12);
            assert_eq!(v["block"]["header"]["version"], 1);
            assert_eq!(v["block"]["header"]["prev_block_hash"], "0".repeat(64).as_str());
            assert_eq!(v["block"]["transactions"][0], "deadbeef");
            assert_eq!(v["block"]["transactions"][1], "00");
            assert_eq!(v["contributor_id"], "node-1");
        }
        _ => panic!("expected a delivery"),
    }
}

#[test]
fn absent_block_is_silently_skipped() {
    let c = enabled_client();
    assert!(matches!(c.handle_block_response(None, 12), Action::Skip));
}

#[test]
fn registry_failure_leaves_notifier_outcome_unaffected() {
    // a dispatch cycle as the loop runs it: the notifier first, the registry
    // collaborator second; the registry failing changes nothing for the
    // notifier's outcome on the same envelope, nor on later ones
    let c = enabled_client();
    let registry_handle =
        |_e: &Envelope| -> Result<(), GovernanceError> {
            Err(GovernanceError::EconomicNodeError("registry down".to_string()))
        };
    let baseline = c.handle_event(&created_envelope(), 55);
    let mut delivered = 0;
    for _cycle in 0..3 {
        let a = c.handle_event(&created_envelope(), 55);
        match (&baseline, &a) {
            (Action::Deliver { url: u1, body: b1 }, Action::Deliver { url: u2, body: b2 }) => {
                assert_eq!(u1, u2);
                assert_eq!(b1, b2);
                delivered += 1;
            }
            _ => panic!("expected deliveries"),
        }
        // the loop absorbs the registry error and continues
        let r = registry_handle(&created_envelope());
        assert!(r.is_err());
    }
    assert_eq!(delivered, 3);
}

#[test]
fn fan_out_schedules_one_delivery_per_event() {
    let c = enabled_client();
    let n = 25;
    let mut actions = Vec::new();
    for i in 0..n {
        let e = Envelope::ProposalCreated {
            proposal_id: format!("p-{}", i),
            tier: "Silver".to_string(),
            author: "carol".to_string(),
            block_height: i as u64,
        };
        actions.push(c.handle_event(&e, 1000 + i as u64));
    }
    assert_eq!(actions.len(), n);
    for (i, a) in actions.iter().enumerate() {
        match a {
            Action::Deliver { url: _, body } => {
                let v: serde_json::Value = serde_json::from_slice(body).unwrap();
                assert_eq!(v["data"]["proposal_id"], format!("p-{}", i).as_str());
            }
            _ => panic!("every qualifying event owes its own delivery"),
        }
    }
}

#[test]
fn json_strings_are_escaped() {
    let data = build_proposal_created_data("a\"b\\c\nd\te", "T\u{1}", "author", 1);
    let body = build_notification_body("proposal_created", &data, &None, 2);
    let v: serde_json::Value = serde_json::from_slice(&body).unwrap();
    assert_eq!(v["data"]["proposal_id"], "a\"b\\c\nd\te");
    assert_eq!(v["data"]["tier"], "T\u{1}");
}

#[test]
fn timestamp_decimal_edges() {
    let body = build_notification_body("proposal_created", b"{}", &None, 0);
    let text = String::from_utf8(body).unwrap();
    assert!(text.ends_with("\"timestamp\":0}"));
    let body = build_notification_body("proposal_created", b"{}", &None, u64::MAX);
    let text = String::from_utf8(body).unwrap();
    assert!(text.ends_with("\"timestamp\":18446744073709551615}"));
}

#[test]
fn block_body_hex_matches_hex_crate() {
    let b = sample_block();
    let body = build_block_body(&b, 3, &Some("id".to_string()));
    let v: serde_json::Value = serde_json::from_slice(&body).unwrap();
    assert_eq!(
        v["block_hash"],
        hex::encode(calculate_block_hash(&b.header)).as_str()
    );
}

#[test]
fn parse_hex_round_trips_the_encoder() {
    let bytes = vec![0x00u8, 0x7f, 0x80, 0xff, 0xde, 0xad];
    let encoded = hex::encode(&bytes);
    assert_eq!(bllvm_governance::json::parse_hex(&encoded), Some(bytes));
    assert_eq!(bllvm_governance::json::parse_hex(""), Some(Vec::new()));
    assert_eq!(bllvm_governance::json::parse_hex("DEADbeef"), Some(vec![0xde, 0xad, 0xbe, 0xef]));
}

#[test]
fn parse_hex_rejects_bad_input() {
    assert_eq!(bllvm_governance::json::parse_hex("abc"), None);
    assert_eq!(bllvm_governance::json::parse_hex("zz"), None);
    assert_eq!(bllvm_governance::json::parse_hex("0g"), None);
}

#[test]
fn error_variants_carry_their_message() {
    assert_eq!(GovernanceError::ModuleError("m".to_string()).message(), "m");
    assert_eq!(GovernanceError::WebhookError("w".to_string()).message(), "w");
    assert_eq!(GovernanceError::EconomicNodeError("e".to_string()).message(), "e");
    assert_eq!(GovernanceError::ConfigError("c".to_string()).message(), "c");
}
