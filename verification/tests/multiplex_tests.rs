use grpc_multiplex::config::{
    validate_config, CommitmentLevel, ConfigError, GrpcSourceConfig,
};
use grpc_multiplex::extract::ExtractBlock;
use grpc_multiplex::merge::merge_round_robin;
use grpc_multiplex::multiplex::run_multiplex;
use grpc_multiplex::update::{BlockUpdate, Update};

fn block(slot: u64, payload: u64) -> Option<Update> {
    Some(Update::Block(BlockUpdate { slot, payload }))
}

fn source(label: &str) -> GrpcSourceConfig {
    GrpcSourceConfig::new(
        label.to_string(),
        format!("http://{}.example:10000", label),
        None,
    )
}

#[test]
fn source_config_new_sets_fields() {
    let c = GrpcSourceConfig::new(
        "alpha".to_string(),
        "http://alpha.example:10000".to_string(),
        Some("example-token".to_string()),
    );
    assert_eq!(c.label, "alpha");
    assert_eq!(c.grpc_addr, "http://alpha.example:10000");
    assert_eq!(c.grpc_x_token.as_deref(), Some("example-token"));
    assert!(c.tls_config.is_none());
}

#[test]
fn unsupported_commitment_is_fatal_at_construction() {
    let sources = vec![source("a")];
    assert_eq!(
        validate_config(&sources, CommitmentLevel::Processed),
        Err(ConfigError::UnsupportedCommitment)
    );
    let extractor = ExtractBlock(CommitmentLevel::Processed);
    let updates = vec![Vec::new()];
    assert_eq!(
        run_multiplex(&sources, CommitmentLevel::Processed, &extractor, &updates),
        Err(ConfigError::UnsupportedCommitment)
    );
}

#[test]
fn empty_source_list_is_fatal_at_construction() {
    let sources: Vec<GrpcSourceConfig> = Vec::new();
    assert_eq!(
        validate_config(&sources, CommitmentLevel::Confirmed),
        Err(ConfigError::NoSources)
    );
    // The commitment level is checked first when both are wrong.
    assert_eq!(
        validate_config(&sources, CommitmentLevel::Processed),
        Err(ConfigError::UnsupportedCommitment)
    );
}

#[test]
fn supported_commitments_are_accepted() {
    let sources = vec![source("a"), source("b")];
    assert_eq!(validate_config(&sources, CommitmentLevel::Confirmed), Ok(()));
    assert_eq!(validate_config(&sources, CommitmentLevel::Finalized), Ok(()));
}

#[test]
fn merge_interleaves_sources_round_robin() {
    let sources = vec![
        vec![block(1, 1), block(4, 1)],
        vec![block(2, 2)],
        vec![block(3, 3), block(5, 3), block(6, 3)],
    ];
    let merged = merge_round_robin(&sources);
    assert_eq!(
        merged,
        vec![
            block(1, 1),
            block(2, 2),
            block(3, 3),
            block(4, 1),
            block(5, 3),
            block(6, 3),
        ]
    );
}

#[test]
fn merge_of_no_sources_is_empty() {
    let merged = merge_round_robin(&Vec::new());
    assert!(merged.is_empty());
}

#[test]
fn multiplex_merges_and_filters() {
    // Two sources racing: simultaneous readiness is interleaved fairly
    // and duplicates lose against the fastest delivery of each slot.
    let sources = vec![source("a"), source("b")];
    let extractor = ExtractBlock(CommitmentLevel::Confirmed);
    let updates = vec![
        vec![block(100, 1), block(102, 1), None, block(104, 1)],
        vec![block(100, 2), block(101, 2), block(103, 2), block(104, 2)],
    ];
    // Round-robin arrival: 100a, 100b, 102a, 101b, -, 103b, 104a, 104b.
    let out = run_multiplex(&sources, CommitmentLevel::Confirmed, &extractor, &updates)
        .expect("valid configuration");
    let slots: Vec<u64> = out.iter().map(|b| b.slot).collect();
    assert_eq!(slots, vec![100, 102, 103, 104]);
    // Slot 100 came from source a first; its block was kept.
    assert_eq!(out[0].payload, 1);
    assert_eq!(out[3].payload, 1);
}
