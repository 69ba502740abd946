//! Applying a batch of certificates in order, with one fetch-and-retry for a
//! certificate whose dependencies are missing.
//!
//! The processor decides; the caller performs each action (a call to the
//! worker, a round of fetches from the validator) and reports what came of it.

use vstd::prelude::*;
use crate::data_types::{Certificate, ChainInfo, HashedBlob, HashedCertificateValue, Notification};
use crate::errors::{LocalNodeError, WorkerError};
use crate::identifiers::{BlobId, BytecodeLocation, ChainId};
use crate::notifications::{bare, carried, factor, WithNotifications};

verus! {

/// What came of applying one certificate, as a closed set of cases.
#[derive(Debug)]
pub enum ApplyOutcome {
    Applied(ChainInfo),
    MissingBytecode(Vec<BytecodeLocation>),
    MissingBlobs(Vec<BlobId>),
    MissingBoth(Vec<BytecodeLocation>, Vec<BlobId>),
    OtherFailure(LocalNodeError),
}

impl ApplyOutcome {
    /// Whether the outcome is one of the three shapes of a missing dependency.
    pub open spec fn is_missing(self) -> bool {
        self is MissingBytecode || self is MissingBlobs || self is MissingBoth
    }

    /// The code objects that the outcome reports missing.
    pub open spec fn locations(self) -> Seq<BytecodeLocation> {
        match self {
            ApplyOutcome::MissingBytecode(locations) => locations@,
            ApplyOutcome::MissingBoth(locations, _) => locations@,
            _ => Seq::empty(),
        }
    }

    /// The blobs that the outcome reports missing.
    pub open spec fn blob_ids(self) -> Seq<BlobId> {
        match self {
            ApplyOutcome::MissingBlobs(blob_ids) => blob_ids@,
            ApplyOutcome::MissingBoth(_, blob_ids) => blob_ids@,
            _ => Seq::empty(),
        }
    }
}

/// The case that a result of the worker falls under.
pub open spec fn outcome_of(result: Result<ChainInfo, LocalNodeError>) -> ApplyOutcome {
    match result {
        Ok(info) => ApplyOutcome::Applied(info),
        Err(LocalNodeError::WorkerError(WorkerError::ApplicationBytecodesNotFound(locations))) => {
            ApplyOutcome::MissingBytecode(locations)
        },
        Err(LocalNodeError::WorkerError(WorkerError::BlobsNotFound(blob_ids))) => {
            ApplyOutcome::MissingBlobs(blob_ids)
        },
        Err(
            LocalNodeError::WorkerError(
                WorkerError::ApplicationBytecodesAndBlobsNotFound(locations, blob_ids),
            ),
        ) => ApplyOutcome::MissingBoth(locations, blob_ids),
        Err(error) => ApplyOutcome::OtherFailure(error),
    }
}

/// Sorts a result of the worker into its case.
pub fn classify(result: Result<ChainInfo, LocalNodeError>) -> (outcome: ApplyOutcome)
    ensures
        outcome == outcome_of(result),
{
    match result {
        Ok(info) => ApplyOutcome::Applied(info),
        Err(LocalNodeError::WorkerError(WorkerError::ApplicationBytecodesNotFound(locations))) => {
            ApplyOutcome::MissingBytecode(locations)
        },
        Err(LocalNodeError::WorkerError(WorkerError::BlobsNotFound(blob_ids))) => {
            ApplyOutcome::MissingBlobs(blob_ids)
        },
        Err(
            LocalNodeError::WorkerError(
                WorkerError::ApplicationBytecodesAndBlobsNotFound(locations, blob_ids),
            ),
        ) => ApplyOutcome::MissingBoth(locations, blob_ids),
        Err(error) => ApplyOutcome::OtherFailure(error),
    }
}

/// What the processor waits for.
#[derive(Clone, Copy, Debug, PartialEq, Eq)]
pub enum ProcessStage {
    /// Nothing yet: the batch was not started.
    Ready,
    /// The outcome of applying the certificate in hand without payloads.
    FirstAttempt,
    /// The dependencies that the first attempt reported missing.
    Fetching,
    /// The outcome of applying the certificate in hand with the fetched payloads.
    Retry,
    /// Nothing more: the batch is over.
    Stopped,
}

/// What the caller is to do next.
#[derive(Debug)]
pub enum ProcessAction {
    /// Apply the certificate with these payloads and report the outcome.
    Apply { certificate: Certificate, values: Vec<HashedCertificateValue>, blobs: Vec<HashedBlob> },
    /// Fetch these from the validator in hand, and report what was found.
    Fetch { chain_id: ChainId, locations: Vec<BytecodeLocation>, blob_ids: Vec<BlobId> },
    /// The batch is over: take the result.
    Done,
}

/// Whether a certificate may be applied to `chain_id`: it is confirmed and of that chain.
pub open spec fn acceptable(certificate: Certificate, chain_id: ChainId) -> bool {
    certificate.is_confirmed() && certificate.chain_id == chain_id
}

/// The state of one batch: the certificates, how many of them were applied,
/// the latest snapshot and the notifications collected so far.
#[derive(Debug)]
pub struct CertificateProcessor {
    pub chain_id: ChainId,
    pub certificates: Vec<Certificate>,
    /// The number of certificates applied: the index of the one in hand.
    pub position: usize,
    pub stage: ProcessStage,
    /// The snapshot that the latest applied certificate gave.
    pub info: Option<ChainInfo>,
    pub notifications: Vec<Notification>,
    /// How many code objects and blobs the fetch in progress was asked for.
    pub wanted_values: usize,
    pub wanted_blobs: usize,
}

impl CertificateProcessor {
    /// Whether there is a certificate in hand and it may be applied.
    pub open spec fn current_acceptable(self) -> bool {
        self.position < self.certificates@.len() && acceptable(
            self.certificates@[self.position as int],
            self.chain_id,
        )
    }

    /// Only acceptable certificates were applied, a snapshot is held exactly
    /// when one was applied, and while an outcome is awaited the certificate
    /// in hand is an acceptable one.
    pub open spec fn wf(self) -> bool {
        &&& self.position <= self.certificates@.len()
        &&& forall|i: int|
            0 <= i < self.position ==> acceptable(#[trigger] self.certificates@[i], self.chain_id)
        &&& self.info is Some <==> self.position > 0
        &&& (self.stage is FirstAttempt || self.stage is Fetching || self.stage is Retry)
            ==> self.current_acceptable()
    }

    /// `post` is `pre` but for the stage and the counts of the fetch.
    pub open spec fn same_progress(pre: Self, post: Self) -> bool {
        &&& post.chain_id == pre.chain_id
        &&& post.certificates@ == pre.certificates@
        &&& post.position == pre.position
        &&& post.info == pre.info
        &&& post.notifications@ == pre.notifications@
    }

    /// The batch ends where it stands.
    pub open spec fn halted(pre: Self, post: Self, action: ProcessAction) -> bool {
        &&& post.position == pre.position
        &&& post.info == pre.info
        &&& post.stage is Stopped
        &&& action is Done
    }

    /// The certificate in hand is applied without payloads if it is an
    /// acceptable one; else the batch ends.
    pub open spec fn turned_to_current(post: Self, action: ProcessAction) -> bool {
        if post.current_acceptable() {
            &&& post.stage is FirstAttempt
            &&& action is Apply
            &&& action->certificate == post.certificates@[post.position as int]
            &&& action->values@ == Seq::<HashedCertificateValue>::empty()
            &&& action->blobs@ == Seq::<HashedBlob>::empty()
        } else {
            post.stage is Stopped && action is Done
        }
    }

    /// What `start` does.
    pub open spec fn after_start(pre: Self, post: Self, action: ProcessAction) -> bool {
        Self::same_progress(pre, post) && Self::turned_to_current(post, action)
    }

    /// What `applied` does with the result of an attempt.
    pub open spec fn after_applied(
        pre: Self,
        result: Result<WithNotifications<ChainInfo>, WithNotifications<LocalNodeError>>,
        post: Self,
        action: ProcessAction,
    ) -> bool {
        let outcome = outcome_of(bare(result));
        &&& post.chain_id == pre.chain_id
        &&& post.certificates@ == pre.certificates@
        &&& post.notifications@ == pre.notifications@ + carried(result)
        &&& if outcome is Applied {
            &&& post.position == pre.position + 1
            &&& post.info == Some(outcome->Applied_0)
            &&& Self::turned_to_current(post, action)
        } else if outcome.is_missing() && pre.stage is FirstAttempt {
            &&& post.position == pre.position
            &&& post.info == pre.info
            &&& post.stage is Fetching
            &&& post.wanted_values == outcome.locations().len()
            &&& post.wanted_blobs == outcome.blob_ids().len()
            &&& action is Fetch
            &&& action->chain_id == pre.chain_id
            &&& action->locations@ == outcome.locations()
            &&& action->blob_ids@ == outcome.blob_ids()
        } else {
            Self::halted(pre, post, action)
        }
    }

    /// What `fetched` does with what a round of fetches found.
    pub open spec fn after_fetched(
        pre: Self,
        values: Vec<HashedCertificateValue>,
        blobs: Vec<HashedBlob>,
        post: Self,
        action: ProcessAction,
    ) -> bool {
        &&& Self::same_progress(pre, post)
        &&& if values@.len() == pre.wanted_values && blobs@.len() == pre.wanted_blobs {
            &&& post.stage is Retry
            &&& action is Apply
            &&& action->certificate == pre.certificates@[pre.position as int]
            &&& action->values == values
            &&& action->blobs == blobs
        } else {
            post.stage is Stopped && action is Done
        }
    }

    /// A batch that was not started.
    pub fn new(chain_id: ChainId, certificates: Vec<Certificate>) -> (processor: Self)
        ensures
            processor.wf(),
            processor.chain_id == chain_id,
            processor.certificates == certificates,
            processor.position == 0,
            processor.stage is Ready,
            processor.info is None,
            processor.notifications@ == Seq::<Notification>::empty(),
    {
        CertificateProcessor {
            chain_id,
            certificates,
            position: 0,
            stage: ProcessStage::Ready,
            info: None,
            notifications: Vec::new(),
            wanted_values: 0,
            wanted_blobs: 0,
        }
    }

    fn turn_to_current(&mut self) -> (action: ProcessAction)
        requires
            old(self).position <= old(self).certificates@.len(),
            forall|i: int|
                0 <= i < old(self).position ==> acceptable(
                    #[trigger] old(self).certificates@[i],
                    old(self).chain_id,
                ),
            old(self).info is Some <==> old(self).position > 0,
        ensures
            final(self).wf(),
            Self::same_progress(*old(self), *final(self)),
            Self::turned_to_current(*final(self), action),
    {
        if self.position < self.certificates.len() {
            let certificate = self.certificates[self.position];
            if certificate.is_confirmed() && certificate.chain_id.0 == self.chain_id.0 {
                self.stage = ProcessStage::FirstAttempt;
                return ProcessAction::Apply { certificate, values: Vec::new(), blobs: Vec::new() };
            }
        }
        self.stage = ProcessStage::Stopped;
        ProcessAction::Done
    }

    /// Starts the batch: the first certificate is applied if it is an
    /// acceptable one. An empty batch is over at once.
    pub fn start(&mut self) -> (action: ProcessAction)
        requires
            old(self).wf(),
            old(self).stage is Ready,
        ensures
            final(self).wf(),
            Self::after_start(*old(self), *final(self), action),
    {
        self.turn_to_current()
    }

    /// Takes the result of the attempt that was asked for.
    ///
    /// The notifications of the result are kept, whichever way it went. On
    /// success the snapshot is recorded and the next certificate is turned
    /// to. A first attempt that reports missing dependencies asks for them
    /// once. Any other failure, and any failure of a retry, ends the batch.
    pub fn applied(
        &mut self,
        result: Result<WithNotifications<ChainInfo>, WithNotifications<LocalNodeError>>,
    ) -> (action: ProcessAction)
        requires
            old(self).wf(),
            old(self).stage is FirstAttempt || old(self).stage is Retry,
        ensures
            final(self).wf(),
            Self::after_applied(*old(self), result, *final(self), action),
    {
        let first = match self.stage {
            ProcessStage::FirstAttempt => true,
            _ => false,
        };
        let merged = factor(result, &mut self.notifications);
        let (locations, blob_ids) = match classify(merged) {
            ApplyOutcome::Applied(info) => {
                self.info = Some(info);
                proof {
                    assert(self.certificates.len() == self.certificates@.len());
                }
                self.position = self.position + 1;
                return self.turn_to_current();
            },
            ApplyOutcome::OtherFailure(_) => {
                self.stage = ProcessStage::Stopped;
                return ProcessAction::Done;
            },
            ApplyOutcome::MissingBytecode(locations) => (locations, Vec::new()),
            ApplyOutcome::MissingBlobs(blob_ids) => (Vec::new(), blob_ids),
            ApplyOutcome::MissingBoth(locations, blob_ids) => (locations, blob_ids),
        };
        if first {
            self.wanted_values = locations.len();
            self.wanted_blobs = blob_ids.len();
            self.stage = ProcessStage::Fetching;
            ProcessAction::Fetch { chain_id: self.chain_id, locations, blob_ids }
        } else {
            self.stage = ProcessStage::Stopped;
            ProcessAction::Done
        }
    }

    /// Takes what the round of fetches found.
    ///
    /// If as many items came back as were asked for, of each sort, the
    /// certificate in hand is applied once more, with them. If any is short,
    /// the batch ends before that certificate.
    pub fn fetched(
        &mut self,
        values: Vec<HashedCertificateValue>,
        blobs: Vec<HashedBlob>,
    ) -> (action: ProcessAction)
        requires
            old(self).wf(),
            old(self).stage is Fetching,
        ensures
            final(self).wf(),
            Self::after_fetched(*old(self), values, blobs, *final(self), action),
    {
        if values.len() == self.wanted_values && blobs.len() == self.wanted_blobs {
            self.stage = ProcessStage::Retry;
            ProcessAction::Apply { certificate: self.certificates[self.position], values, blobs }
        } else {
            self.stage = ProcessStage::Stopped;
            ProcessAction::Done
        }
    }

    /// The result of the batch as far as it went: the snapshot of the latest
    /// applied certificate, if any was applied, with every notification
    /// collected.
    pub fn finish(self) -> (result: WithNotifications<Option<ChainInfo>>)
        ensures
            result.value == self.info,
            result.notifications == self.notifications,
    {
        WithNotifications::new(self.info, self.notifications)
    }
}

} // verus!
