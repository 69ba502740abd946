use linera_local_node::data_types::{
    BlockHeightRange, Certificate, CertificateKind, ChainInfo, ChainInfoQuery, ChainManagerInfo,
    HashedBlob, HashedCertificateValue, ValidatorReply,
};
use linera_local_node::errors::{LocalNodeError, ViewError};
use linera_local_node::identifiers::{
    BlobId, BlockHeight, BytecodeLocation, ChainId, CryptoHash, MessageId,
};
use linera_local_node::local_node::{local_chain_query, LocalNode};
use linera_local_node::lookup::{certificate_query, find_certificate_for};
use linera_local_node::resolve::{
    after_storage_read, after_storage_write, blob_from_reply, blob_query, collect_found, gather,
    split_cached, trial_step, value_from_reply, value_query, CacheLookup, StorageDecision,
    TrialStep,
};
use linera_local_node::trial::ValidatorTrial;
use linera_local_node::version_info::VersionInfo;

const CHAIN: ChainId = ChainId(1);

fn value(hash: u64) -> HashedCertificateValue {
    HashedCertificateValue { hash: CryptoHash(hash) }
}

fn payload_info(blob: Option<HashedBlob>, value: Option<HashedCertificateValue>) -> ChainInfo {
    ChainInfo {
        chain_id: CHAIN,
        next_block_height: BlockHeight(0),
        requested_sent_certificates: vec![],
        requested_blob: blob,
        requested_hashed_certificate_value: value,
        manager: ChainManagerInfo { requested_proposed: None, requested_locked: None },
    }
}

#[test]
fn queries_ask_for_exactly_one_payload() {
    let query = blob_query(CHAIN, BlobId(3));
    assert_eq!(query, ChainInfoQuery::new(CHAIN).with_blob(BlobId(3)));
    assert_eq!(query.request_blob, Some(BlobId(3)));
    assert_eq!(query.request_hashed_certificate_value, None);
    assert!(!query.request_manager_values);
    let location = BytecodeLocation { certificate_hash: CryptoHash(11), operation_index: 4 };
    let query = value_query(CHAIN, location);
    assert_eq!(query.request_hashed_certificate_value, Some(CryptoHash(11)));
    assert_eq!(query.request_blob, None);
    assert_eq!(query.request_sent_certificates_in_range, None);
}

#[test]
fn builder_sets_one_knob_at_a_time() {
    let base = ChainInfoQuery::new(CHAIN);
    assert_eq!(base.chain_id, CHAIN);
    assert_eq!(base.request_sent_certificates_in_range, None);
    assert!(!base.request_manager_values);
    assert_eq!(base.request_blob, None);
    assert_eq!(base.request_hashed_certificate_value, None);
    assert_eq!(local_chain_query(CHAIN), base);
    let with_values = base.with_manager_values();
    assert!(with_values.request_manager_values);
    assert_eq!(ChainInfoQuery { request_manager_values: false, ..with_values }, base);
    assert_eq!(
        BlockHeightRange::single(BlockHeight(4)),
        BlockHeightRange { start: BlockHeight(4), limit: Some(1) }
    );
}

#[test]
fn payloads_come_only_from_verified_answers() {
    let blob = HashedBlob { id: BlobId(3) };
    let info = payload_info(Some(blob), Some(value(5)));
    assert_eq!(blob_from_reply(ValidatorReply::Answered { info: info.clone(), verified: true }), Some(blob));
    assert_eq!(blob_from_reply(ValidatorReply::Answered { info: info.clone(), verified: false }), None);
    assert_eq!(blob_from_reply(ValidatorReply::Unreachable), None);
    assert_eq!(value_from_reply(ValidatorReply::Answered { info: info.clone(), verified: true }), Some(value(5)));
    assert_eq!(value_from_reply(ValidatorReply::Answered { info, verified: false }), None);
    assert_eq!(value_from_reply(ValidatorReply::Unreachable), None);
    let empty = payload_info(None, None);
    assert_eq!(blob_from_reply(ValidatorReply::Answered { info: empty.clone(), verified: true }), None);
    assert_eq!(value_from_reply(ValidatorReply::Answered { info: empty, verified: true }), None);
}

#[test]
fn collect_found_keeps_order_and_drops_misses() {
    assert_eq!(collect_found(&vec![Some(1u8), None, Some(3), None]), vec![1, 3]);
    assert_eq!(collect_found::<u8>(&vec![]), Vec::<u8>::new());
    assert_eq!(collect_found::<u8>(&vec![None, None]), Vec::<u8>::new());
    assert_eq!(collect_found(&vec![Some(2u8), Some(1)]), vec![2, 1]);
}

#[test]
fn trial_step_stops_at_first_item_found() {
    let mut trial = ValidatorTrial::in_order(vec![1, 0], 2).unwrap();
    assert!(matches!(trial_step::<HashedBlob>(&mut trial, None), TrialStep::Try(1)));
    let blob = HashedBlob { id: BlobId(3) };
    assert!(matches!(trial_step(&mut trial, Some(blob)), TrialStep::Found(b) if b == blob));
    assert_eq!(trial.position, 1);
}

#[test]
fn trial_step_reports_absence_after_last_validator() {
    let mut trial = ValidatorTrial::in_order(vec![1, 0], 2).unwrap();
    assert!(matches!(trial_step::<HashedBlob>(&mut trial, None), TrialStep::Try(1)));
    assert!(matches!(trial_step::<HashedBlob>(&mut trial, None), TrialStep::Try(0)));
    assert!(matches!(trial_step::<HashedBlob>(&mut trial, None), TrialStep::NotFound));
    let mut nobody = ValidatorTrial::in_order(vec![], 0).unwrap();
    assert!(matches!(trial_step::<HashedBlob>(&mut nobody, None), TrialStep::NotFound));
}

#[test]
fn storage_read_decides_between_found_download_and_failure() {
    assert!(matches!(after_storage_read(Ok(value(1))), StorageDecision::Found(v) if v == value(1)));
    assert!(matches!(
        after_storage_read(Err(ViewError::NotFound("x".to_string()))),
        StorageDecision::Download
    ));
    assert!(matches!(
        after_storage_read(Err(ViewError::Other("io".to_string()))),
        StorageDecision::Fail(LocalNodeError::ViewError(ViewError::Other(m))) if m == "io"
    ));
}

#[test]
fn storage_write_failure_fails_the_resolution() {
    assert_eq!(after_storage_write(value(1), Ok(())), Ok(Some(value(1))));
    assert_eq!(
        after_storage_write(value(1), Err(ViewError::Other("full".to_string()))),
        Err(LocalNodeError::ViewError(ViewError::Other("full".to_string())))
    );
}

#[test]
fn gather_returns_exactly_the_resolvable_values() {
    let gathered = gather(
        vec![value(1)],
        vec![Ok(None), Ok(Some(value(2))), Ok(None), Ok(Some(value(3)))],
    );
    assert_eq!(gathered.fresh, vec![value(2), value(3)]);
    assert_eq!(gathered.outcome, Ok(vec![value(1), value(2), value(3)]));
}

#[test]
fn gather_with_nothing_to_resolve_returns_cached() {
    let gathered = gather(vec![value(1), value(2)], vec![]);
    assert!(gathered.fresh.is_empty());
    assert_eq!(gathered.outcome, Ok(vec![value(1), value(2)]));
    let gathered = gather(vec![], vec![Ok(None)]);
    assert_eq!(gathered.outcome, Ok(vec![]));
}

#[test]
fn gather_reports_first_failure_and_what_came_before() {
    let first = LocalNodeError::ViewError(ViewError::Other("first".to_string()));
    let second = LocalNodeError::ViewError(ViewError::Other("second".to_string()));
    let gathered = gather(
        vec![value(1)],
        vec![Ok(Some(value(2))), Err(first.clone()), Ok(Some(value(3))), Err(second)],
    );
    assert_eq!(gathered.fresh, vec![value(2)]);
    assert_eq!(gathered.outcome, Err(first));
}

#[test]
fn certificate_query_asks_for_the_height_of_the_message() {
    let message_id = MessageId { chain_id: ChainId(4), height: BlockHeight(12), index: 0 };
    let query = certificate_query(&message_id);
    assert_eq!(query.chain_id, ChainId(4));
    assert_eq!(
        query.request_sent_certificates_in_range,
        Some(BlockHeightRange { start: BlockHeight(12), limit: Some(1) })
    );
    assert!(!query.request_manager_values);
}

fn block(hash: u64, height: u64, kind: CertificateKind, message_count: u32) -> Certificate {
    Certificate { hash: CryptoHash(hash), chain_id: CHAIN, height: BlockHeight(height), kind, message_count }
}

#[test]
fn has_message_needs_chain_height_and_index() {
    let certificate = block(1, 5, CertificateKind::Confirmed, 2);
    let id = |chain: u64, height: u64, index: u32| MessageId {
        chain_id: ChainId(chain),
        height: BlockHeight(height),
        index,
    };
    assert!(certificate.has_message(&id(1, 5, 0)));
    assert!(certificate.has_message(&id(1, 5, 1)));
    assert!(!certificate.has_message(&id(1, 5, 2)));
    assert!(!certificate.has_message(&id(1, 4, 0)));
    assert!(!certificate.has_message(&id(2, 5, 0)));
    assert!(block(1, 5, CertificateKind::Validated, 2).has_message(&id(1, 5, 1)));
    assert!(!block(1, 5, CertificateKind::Timeout, 2).has_message(&id(1, 5, 1)));
    assert!(certificate.is_confirmed());
    assert!(!certificate.is_validated());
    assert!(block(1, 5, CertificateKind::Validated, 0).is_validated());
    assert!(!block(1, 5, CertificateKind::Timeout, 0).is_confirmed());
}

#[test]
fn find_certificate_picks_first_holder() {
    let message_id = MessageId { chain_id: CHAIN, height: BlockHeight(5), index: 1 };
    let certificates = vec![
        block(1, 5, CertificateKind::Confirmed, 1),
        block(2, 5, CertificateKind::Confirmed, 2),
        block(3, 5, CertificateKind::Confirmed, 3),
    ];
    assert_eq!(find_certificate_for(&certificates, &message_id), Ok(certificates[1]));
}

#[test]
fn find_certificate_reports_not_found() {
    let message_id = MessageId { chain_id: CHAIN, height: BlockHeight(5), index: 1 };
    let expected = Err(LocalNodeError::ViewError(ViewError::NotFound(
        "could not find certificate with message".to_string(),
    )));
    assert_eq!(find_certificate_for(&vec![], &message_id), expected);
    let certificates = vec![block(1, 5, CertificateKind::Confirmed, 1), block(2, 6, CertificateKind::Confirmed, 9)];
    assert_eq!(find_certificate_for(&certificates, &message_id), expected);
}

#[test]
fn version_listing_has_one_line_per_entry() {
    let version = VersionInfo {
        crate_version: "0.11.0".to_string(),
        git_commit: "abc123".to_string(),
        rpc_hash: "r1".to_string(),
        graphql_hash: "g2".to_string(),
        wit_hash: "w3".to_string(),
    };
    assert_eq!(
        version.log(),
        vec![
            "Linera v0.11.0".to_string(),
            "Built from git commit: abc123".to_string(),
            "RPC API hash: r1".to_string(),
            "GraphQL API hash: g2".to_string(),
            "WIT API hash: w3".to_string(),
        ]
    );
}

#[test]
fn local_node_holds_its_worker() {
    let node = LocalNode::new(41u32);
    assert_eq!(node.state, 41);
}

#[test]
fn split_cached_parts_hits_from_misses() {
    let location = |hash: u64| BytecodeLocation { certificate_hash: CryptoHash(hash), operation_index: 0 };
    let lookups = vec![
        CacheLookup { location: location(1), chain_id: ChainId(1), cached: None },
        CacheLookup { location: location(2), chain_id: ChainId(2), cached: Some(value(2)) },
        CacheLookup { location: location(3), chain_id: ChainId(3), cached: None },
        CacheLookup { location: location(4), chain_id: ChainId(4), cached: Some(value(4)) },
    ];
    let (hits, misses) = split_cached(&lookups);
    assert_eq!(hits, vec![value(2), value(4)]);
    assert_eq!(misses, vec![(location(1), ChainId(1)), (location(3), ChainId(3))]);
    let (hits, misses) = split_cached(&vec![]);
    assert!(hits.is_empty());
    assert!(misses.is_empty());
}
