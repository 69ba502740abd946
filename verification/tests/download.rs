use linera_local_node::data_types::{
    BlockHeightRange, Certificate, CertificateKind, ChainInfo, ChainInfoQuery, ChainManagerInfo,
    Notification, ValidatorReply,
};
use linera_local_node::download::{
    batch_limit, certificates_from_reply, download_step, DownloadAction, DownloadStage,
    DownloadStep, RangeDownloader, DEFAULT_BATCH_CAP,
};
use linera_local_node::errors::LocalNodeError;
use linera_local_node::identifiers::{ArithmeticError, BlockHeight, ChainId, CryptoHash};
use linera_local_node::notifications::WithNotifications;
use linera_local_node::processing::{CertificateProcessor, ProcessAction};
use linera_local_node::trial::ValidatorTrial;

const CHAIN: ChainId = ChainId(1);

fn cert(height: u64) -> Certificate {
    Certificate {
        hash: CryptoHash(100 + height),
        chain_id: CHAIN,
        height: BlockHeight(height),
        kind: CertificateKind::Confirmed,
        message_count: 0,
    }
}

fn info(next: u64, certificates: Vec<Certificate>) -> ChainInfo {
    ChainInfo {
        chain_id: CHAIN,
        next_block_height: BlockHeight(next),
        requested_sent_certificates: certificates,
        requested_blob: None,
        requested_hashed_certificate_value: None,
        manager: ChainManagerInfo { requested_proposed: None, requested_locked: None },
    }
}

fn range_query(start: u64, limit: u64) -> ChainInfoQuery {
    ChainInfoQuery::new(CHAIN).with_sent_certificates_in_range(BlockHeightRange {
        start: BlockHeight(start),
        limit: Some(limit),
    })
}

#[test]
fn batch_limit_is_distance_capped() {
    assert_eq!(DEFAULT_BATCH_CAP, 1000);
    assert_eq!(batch_limit(BlockHeight(3), BlockHeight(8), 1000), Ok(5));
    assert_eq!(batch_limit(BlockHeight(0), BlockHeight(1000), 1000), Ok(1000));
    assert_eq!(batch_limit(BlockHeight(0), BlockHeight(999), 1000), Ok(999));
    assert_eq!(batch_limit(BlockHeight(0), BlockHeight(2500), 1000), Ok(1000));
    assert_eq!(batch_limit(BlockHeight(0), BlockHeight(u64::MAX), 1000), Ok(1000));
    assert_eq!(batch_limit(BlockHeight(4), BlockHeight(4), 1000), Ok(0));
    assert_eq!(batch_limit(BlockHeight(0), BlockHeight(2500), 10), Ok(10));
}

#[test]
fn batch_limit_reports_overflow_when_stop_is_below_start() {
    assert_eq!(
        batch_limit(BlockHeight(9), BlockHeight(8), 1000),
        Err(ArithmeticError::Overflow)
    );
}

#[test]
fn reply_offers_certificates_only_when_verified() {
    let certificates = vec![cert(0), cert(1)];
    assert_eq!(
        certificates_from_reply(ValidatorReply::Answered {
            info: info(2, certificates.clone()),
            verified: true
        }),
        Some(certificates.clone())
    );
    assert_eq!(
        certificates_from_reply(ValidatorReply::Answered {
            info: info(2, certificates),
            verified: false
        }),
        None
    );
    assert_eq!(certificates_from_reply(ValidatorReply::Unreachable), None);
}

#[test]
fn verified_empty_answer_offers_empty_list() {
    assert_eq!(
        certificates_from_reply(ValidatorReply::Answered { info: info(2, vec![]), verified: true }),
        Some(vec![])
    );
}

#[test]
fn download_with_nothing_wanted_is_over_at_once() {
    let mut downloader = RangeDownloader::new(CHAIN, BlockHeight(5), BlockHeight(5));
    assert!(matches!(downloader.start(), DownloadAction::Done));
    assert_eq!(downloader.stage, DownloadStage::Stopped);
    let mut downloader = RangeDownloader::new(CHAIN, BlockHeight(6), BlockHeight(5));
    assert!(matches!(downloader.start(), DownloadAction::Done));
}

#[test]
fn download_asks_in_capped_batches_and_advances() {
    let mut downloader = RangeDownloader::new(CHAIN, BlockHeight(0), BlockHeight(2500));
    assert!(matches!(downloader.start(), DownloadAction::Query(q) if q == range_query(0, 1000)));
    let certificates = vec![cert(0), cert(1)];
    let action = downloader.replied(ValidatorReply::Answered {
        info: info(2500, certificates.clone()),
        verified: true,
    });
    assert!(matches!(action, DownloadAction::Process(c) if c == certificates));
    assert_eq!(downloader.stage, DownloadStage::Processing);
    let note = Notification { chain_id: CHAIN, token: 1 };
    let result = WithNotifications::new(Some(info(1000, vec![])), vec![note]);
    assert!(downloader.made_progress(&result.value));
    let action = downloader.processed(result);
    assert!(matches!(action, DownloadAction::Query(q) if q == range_query(1000, 1000)));
    assert_eq!(downloader.start, BlockHeight(1000));
    let _ = downloader.replied(ValidatorReply::Answered { info: info(2500, vec![cert(1000)]), verified: true });
    let action = downloader.processed(WithNotifications::new(Some(info(2100, vec![])), vec![]));
    assert!(matches!(action, DownloadAction::Query(q) if q == range_query(2100, 400)));
    let _ = downloader.replied(ValidatorReply::Answered { info: info(2500, vec![cert(2100)]), verified: true });
    let action = downloader.processed(WithNotifications::new(Some(info(2500, vec![])), vec![]));
    assert!(matches!(action, DownloadAction::Done));
    assert_eq!(downloader.start, BlockHeight(2500));
    assert_eq!(downloader.finish(), vec![note]);
}

#[test]
fn download_with_custom_cap_uses_it() {
    let mut downloader =
        RangeDownloader::new(CHAIN, BlockHeight(0), BlockHeight(50)).with_batch_cap(7);
    assert!(matches!(downloader.start(), DownloadAction::Query(q) if q == range_query(0, 7)));
}

#[test]
fn download_stops_on_unusable_reply() {
    let mut downloader = RangeDownloader::new(CHAIN, BlockHeight(0), BlockHeight(10));
    let _ = downloader.start();
    assert!(matches!(downloader.replied(ValidatorReply::Unreachable), DownloadAction::Done));
    assert_eq!(downloader.stage, DownloadStage::Stopped);

    let mut downloader = RangeDownloader::new(CHAIN, BlockHeight(0), BlockHeight(10));
    let _ = downloader.start();
    let reply = ValidatorReply::Answered { info: info(10, vec![cert(0)]), verified: false };
    assert!(matches!(downloader.replied(reply), DownloadAction::Done));
    assert_eq!(downloader.start, BlockHeight(0));
}

#[test]
fn download_stops_when_batch_applied_nothing() {
    let mut downloader = RangeDownloader::new(CHAIN, BlockHeight(0), BlockHeight(10));
    let _ = downloader.start();
    let _ = downloader.replied(ValidatorReply::Answered { info: info(10, vec![cert(0)]), verified: true });
    let note = Notification { chain_id: CHAIN, token: 4 };
    let action = downloader.processed(WithNotifications::new(None, vec![note]));
    assert!(matches!(action, DownloadAction::Done));
    assert_eq!(downloader.start, BlockHeight(0));
    assert_eq!(downloader.finish(), vec![note]);
}

#[test]
fn made_progress_detects_a_stalled_height() {
    let downloader = RangeDownloader::new(CHAIN, BlockHeight(5), BlockHeight(10));
    assert!(downloader.made_progress(&None));
    assert!(downloader.made_progress(&Some(info(6, vec![]))));
    assert!(!downloader.made_progress(&Some(info(5, vec![]))));
    assert!(!downloader.made_progress(&Some(info(4, vec![]))));
}

#[test]
fn download_beyond_stop_ends() {
    let mut downloader = RangeDownloader::new(CHAIN, BlockHeight(0), BlockHeight(3));
    let _ = downloader.start();
    let _ = downloader.replied(ValidatorReply::Answered { info: info(9, vec![cert(0)]), verified: true });
    let action = downloader.processed(WithNotifications::new(Some(info(7, vec![])), vec![]));
    assert!(matches!(action, DownloadAction::Done));
    assert_eq!(downloader.start, BlockHeight(7));
}

#[test]
fn step_returns_snapshot_when_target_reached() {
    let mut trial = ValidatorTrial::in_order(vec![0, 1], 2).unwrap();
    let step = download_step(&mut trial, CHAIN, BlockHeight(4), info(4, vec![]));
    assert!(matches!(step, DownloadStep::Reached(i) if i == info(4, vec![])));
    assert_eq!(trial.position, 0);
    let step = download_step(&mut trial, CHAIN, BlockHeight(4), info(9, vec![]));
    assert!(matches!(step, DownloadStep::Reached(i) if i == info(9, vec![])));
}

#[test]
fn step_tries_validators_in_order_then_fails() {
    let mut trial = ValidatorTrial::in_order(vec![1, 0], 2).unwrap();
    match download_step(&mut trial, CHAIN, BlockHeight(4), info(2, vec![])) {
        DownloadStep::Try { validator, downloader } => {
            assert_eq!(validator, 1);
            assert_eq!(downloader.chain_id, CHAIN);
            assert_eq!(downloader.start, BlockHeight(2));
            assert_eq!(downloader.stop, BlockHeight(4));
            assert_eq!(downloader.batch_cap, 1000);
            assert_eq!(downloader.stage, DownloadStage::Ready);
        }
        other => panic!("expected a validator, got {:?}", other),
    }
    match download_step(&mut trial, CHAIN, BlockHeight(4), info(3, vec![])) {
        DownloadStep::Try { validator, downloader } => {
            assert_eq!(validator, 0);
            assert_eq!(downloader.start, BlockHeight(3));
        }
        other => panic!("expected a validator, got {:?}", other),
    }
    match download_step(&mut trial, CHAIN, BlockHeight(4), info(3, vec![])) {
        DownloadStep::Failed(error) => assert_eq!(
            error,
            LocalNodeError::CannotDownloadCertificates {
                chain_id: CHAIN,
                target_next_block_height: BlockHeight(4)
            }
        ),
        other => panic!("expected a failure, got {:?}", other),
    }
}

#[test]
fn step_with_no_validators_fails_unless_reached() {
    let mut trial = ValidatorTrial::in_order(vec![], 0).unwrap();
    assert!(matches!(
        download_step(&mut trial, CHAIN, BlockHeight(1), info(0, vec![])),
        DownloadStep::Failed(_)
    ));
    assert!(matches!(
        download_step(&mut trial, CHAIN, BlockHeight(0), info(0, vec![])),
        DownloadStep::Reached(_)
    ));
}

/// A local chain that accepts the certificate of its next height, and a
/// driver that follows the library's decisions against two validators: the
/// first cannot be reached, the second holds every certificate.
fn run_download(order: Vec<usize>, target: u64) -> Result<ChainInfo, LocalNodeError> {
    let mut local_height = 0u64;
    let count = order.len();
    let mut trial = ValidatorTrial::in_order(order, count).unwrap();
    loop {
        match download_step(&mut trial, CHAIN, BlockHeight(target), info(local_height, vec![])) {
            DownloadStep::Reached(info) => return Ok(info),
            DownloadStep::Failed(error) => return Err(error),
            DownloadStep::Try { validator, mut downloader } => {
                let mut action = downloader.start();
                loop {
                    action = match action {
                        DownloadAction::Done => break,
                        DownloadAction::Query(query) => {
                            let reply = if validator == 0 {
                                ValidatorReply::Unreachable
                            } else {
                                let range = query.request_sent_certificates_in_range.unwrap();
                                let count = range.limit.unwrap().min(3);
                                let certificates =
                                    (range.start.0..range.start.0 + count).map(cert).collect();
                                ValidatorReply::Answered { info: info(target, certificates), verified: true }
                            };
                            downloader.replied(reply)
                        }
                        DownloadAction::Process(certificates) => {
                            let mut processor = CertificateProcessor::new(CHAIN, certificates);
                            let mut step = processor.start();
                            while let ProcessAction::Apply { certificate, .. } = step {
                                assert_eq!(certificate.height.0, local_height);
                                local_height += 1;
                                step = processor.applied(Ok(WithNotifications::new(
                                    info(local_height, vec![]),
                                    vec![],
                                )));
                            }
                            let result = processor.finish();
                            assert!(downloader.made_progress(&result.value));
                            downloader.processed(result)
                        }
                    };
                }
            }
        }
    }
}

#[test]
fn download_succeeds_whichever_validator_is_tried_first() {
    assert_eq!(run_download(vec![0, 1], 8), Ok(info(8, vec![])));
    assert_eq!(run_download(vec![1, 0], 8), Ok(info(8, vec![])));
}

#[test]
fn download_fails_when_only_unreachable_validators_are_left() {
    assert_eq!(
        run_download(vec![0], 8),
        Err(LocalNodeError::CannotDownloadCertificates {
            chain_id: CHAIN,
            target_next_block_height: BlockHeight(8)
        })
    );
}

#[test]
fn shuffled_order_holds_each_validator_once() {
    for count in [0usize, 1, 2, 5, 40] {
        let trial = ValidatorTrial::shuffled(count);
        assert_eq!(trial.count, count);
        assert_eq!(trial.position, 0);
        let mut sorted = trial.order.clone();
        sorted.sort();
        assert_eq!(sorted, (0..count).collect::<Vec<_>>());
    }
}

#[test]
fn shuffled_order_is_not_always_rising() {
    let rising: Vec<usize> = (0..40).collect();
    let mut moved = false;
    for _ in 0..20 {
        if ValidatorTrial::shuffled(40).order != rising {
            moved = true;
        }
    }
    assert!(moved);
}

#[test]
fn given_order_is_checked_against_count() {
    assert!(ValidatorTrial::in_order(vec![0, 2], 2).is_none());
    assert!(ValidatorTrial::in_order(vec![0], 0).is_none());
    assert!(ValidatorTrial::in_order(vec![1, 1, 0], 2).is_none());
    assert!(ValidatorTrial::in_order(vec![0, 0], 2).is_none());
    assert!(ValidatorTrial::in_order(vec![1, 1], 2).is_none());
    assert!(ValidatorTrial::in_order(vec![0], 2).is_none());
    assert!(ValidatorTrial::in_order(vec![], 1).is_none());
    assert!(ValidatorTrial::in_order(vec![0, 1, 1], 3).is_none());
    let trial = ValidatorTrial::in_order(vec![1, 0], 2).unwrap();
    assert_eq!(trial.order, vec![1, 0]);
    assert_eq!(trial.count, 2);
    assert_eq!(trial.position, 0);
    let trial = ValidatorTrial::in_order(vec![2, 0, 3, 1], 4).unwrap();
    assert_eq!(trial.order, vec![2, 0, 3, 1]);
    assert!(ValidatorTrial::in_order(vec![], 0).is_some());
}

#[test]
fn shuffled_order_is_accepted_as_a_given_order() {
    for count in [0usize, 1, 3, 17] {
        let drawn = ValidatorTrial::shuffled(count).order;
        assert!(ValidatorTrial::in_order(drawn, count).is_some());
    }
}

#[test]
fn trial_hands_out_validators_then_none() {
    let mut trial = ValidatorTrial::in_order(vec![2, 0, 1], 3).unwrap();
    assert_eq!(trial.next(), Some(2));
    assert_eq!(trial.next(), Some(0));
    assert_eq!(trial.next(), Some(1));
    assert_eq!(trial.next(), None);
    assert_eq!(trial.next(), None);
    assert_eq!(trial.position, 3);
}
