//! Downloading the certificates of one chain up to a target height: from one
//! validator in capped batches, and from several validators one after
//! another.

use vstd::prelude::*;
use crate::data_types::{
    BlockHeightRange, Certificate, ChainInfo, ChainInfoQuery, Notification, ValidatorReply,
};
use crate::errors::LocalNodeError;
use crate::identifiers::{ArithmeticError, BlockHeight, ChainId};
use crate::notifications::WithNotifications;
use crate::trial::ValidatorTrial;

verus! {

/// The most certificates that one query asks for, unless another cap is set.
pub const DEFAULT_BATCH_CAP: u64 = 1000;

/// The number of certificates to ask for next: as many as lie between `start`
/// and `stop`, but no more than `cap`.
pub open spec fn spec_batch_limit(start: BlockHeight, stop: BlockHeight, cap: u64) -> Result<
    u64,
    ArithmeticError,
> {
    if stop.0 < start.0 {
        Err(ArithmeticError::Overflow)
    } else if stop.0 - start.0 < cap {
        Ok((stop.0 - start.0) as u64)
    } else {
        Ok(cap)
    }
}

pub fn batch_limit(start: BlockHeight, stop: BlockHeight, cap: u64) -> (limit: Result<
    u64,
    ArithmeticError,
>)
    ensures
        limit == spec_batch_limit(start, stop, cap),
{
    match stop.0.checked_sub(start.0) {
        Some(distance) => {
            if distance < cap {
                Ok(distance)
            } else {
                Ok(cap)
            }
        },
        None => Err(ArithmeticError::Overflow),
    }
}

/// The certificates that a reply to a range query offers: those of a
/// verified answer. A failed call and an answer that failed the check offer
/// none.
pub open spec fn spec_certificates_from_reply(reply: ValidatorReply) -> Option<Vec<Certificate>> {
    match reply.usable() {
        Some(info) => Some(info.requested_sent_certificates),
        None => None,
    }
}

pub fn certificates_from_reply(reply: ValidatorReply) -> (certificates: Option<Vec<Certificate>>)
    ensures
        certificates == spec_certificates_from_reply(reply),
{
    match reply.into_usable() {
        Some(info) => Some(info.requested_sent_certificates),
        None => None,
    }
}

/// What the downloader waits for.
#[derive(Clone, Copy, Debug, PartialEq, Eq)]
pub enum DownloadStage {
    /// Nothing yet: the download was not started.
    Ready,
    /// The validator's reply to the query.
    Querying,
    /// The result of applying the batch.
    Processing,
    /// Nothing more: the download from this validator is over.
    Stopped,
}

/// What the caller is to do next.
#[derive(Debug)]
pub enum DownloadAction {
    /// Send the query to the validator and report the reply.
    Query(ChainInfoQuery),
    /// Apply these certificates in order and report the result of the batch.
    Process(Vec<Certificate>),
    /// The download from this validator is over.
    Done,
}

/// The download of the heights from `start` up to, not including, `stop`
/// from one validator.
#[derive(Debug)]
pub struct RangeDownloader {
    pub chain_id: ChainId,
    /// The next height that is wanted.
    pub start: BlockHeight,
    pub stop: BlockHeight,
    pub batch_cap: u64,
    pub stage: DownloadStage,
    pub notifications: Vec<Notification>,
}

impl RangeDownloader {
    /// The query for the next batch.
    pub open spec fn next_query(self) -> ChainInfoQuery {
        ChainInfoQuery {
            chain_id: self.chain_id,
            request_sent_certificates_in_range: Some(
                BlockHeightRange {
                    start: self.start,
                    limit: Some(spec_batch_limit(self.start, self.stop, self.batch_cap)->Ok_0),
                },
            ),
            request_manager_values: false,
            request_blob: None,
            request_hashed_certificate_value: None,
        }
    }

    /// `post` is `pre` but for the stage.
    pub open spec fn same_progress(pre: Self, post: Self) -> bool {
        &&& post.chain_id == pre.chain_id
        &&& post.start == pre.start
        &&& post.stop == pre.stop
        &&& post.batch_cap == pre.batch_cap
        &&& post.notifications@ == pre.notifications@
    }

    /// While heights are wanted, the next batch is asked for; once `start`
    /// has reached `stop`, the download is over.
    pub open spec fn turned_to_range(post: Self, action: DownloadAction) -> bool {
        if post.start.0 < post.stop.0 {
            post.stage is Querying && action == DownloadAction::Query(post.next_query())
        } else {
            post.stage is Stopped && action is Done
        }
    }

    /// What `replied` does with a reply.
    pub open spec fn after_replied(
        pre: Self,
        reply: ValidatorReply,
        post: Self,
        action: DownloadAction,
    ) -> bool {
        &&& Self::same_progress(pre, post)
        &&& match spec_certificates_from_reply(reply) {
            Some(certificates) => post.stage is Processing && action == DownloadAction::Process(
                certificates,
            ),
            None => post.stage is Stopped && action is Done,
        }
    }

    /// Whether the result of a batch may be reported: a batch that applied
    /// anything has moved the chain beyond `start`.
    pub open spec fn spec_made_progress(&self, info: &Option<ChainInfo>) -> bool {
        info is Some ==> info->0.next_block_height.0 > self.start.0
    }

    /// What `processed` does with the result of a batch.
    pub open spec fn after_processed(
        pre: Self,
        result: WithNotifications<Option<ChainInfo>>,
        post: Self,
        action: DownloadAction,
    ) -> bool {
        &&& post.chain_id == pre.chain_id
        &&& post.stop == pre.stop
        &&& post.batch_cap == pre.batch_cap
        &&& post.notifications@ == pre.notifications@ + result.notifications@
        &&& match result.value {
            Some(info) => post.start == info.next_block_height && Self::turned_to_range(
                post,
                action,
            ),
            None => post.start == pre.start && post.stage is Stopped && action is Done,
        }
    }

    /// A download that was not started, with the default cap on a batch.
    pub fn new(chain_id: ChainId, start: BlockHeight, stop: BlockHeight) -> (downloader: Self)
        ensures
            downloader.chain_id == chain_id,
            downloader.start == start,
            downloader.stop == stop,
            downloader.batch_cap == DEFAULT_BATCH_CAP,
            downloader.stage is Ready,
            downloader.notifications@ == Seq::<Notification>::empty(),
    {
        RangeDownloader {
            chain_id,
            start,
            stop,
            batch_cap: DEFAULT_BATCH_CAP,
            stage: DownloadStage::Ready,
            notifications: Vec::new(),
        }
    }

    /// The same download with another cap on a batch.
    pub fn with_batch_cap(self, batch_cap: u64) -> (downloader: Self)
        ensures
            downloader == (RangeDownloader { batch_cap, ..self }),
    {
        RangeDownloader { batch_cap, ..self }
    }

    fn turn_to_range(&mut self) -> (action: DownloadAction)
        ensures
            Self::same_progress(*old(self), *final(self)),
            Self::turned_to_range(*final(self), action),
    {
        if self.start.0 < self.stop.0 {
            match batch_limit(self.start, self.stop, self.batch_cap) {
                Ok(limit) => {
                    let range = BlockHeightRange { start: self.start, limit: Some(limit) };
                    self.stage = DownloadStage::Querying;
                    return DownloadAction::Query(
                        ChainInfoQuery::new(self.chain_id).with_sent_certificates_in_range(range),
                    );
                },
                Err(_) => {},
            }
        }
        self.stage = DownloadStage::Stopped;
        DownloadAction::Done
    }

    /// Starts the download: asks for the first batch, unless no height is wanted.
    pub fn start(&mut self) -> (action: DownloadAction)
        requires
            old(self).stage is Ready,
        ensures
            Self::same_progress(*old(self), *final(self)),
            Self::turned_to_range(*final(self), action),
    {
        self.turn_to_range()
    }

    /// Takes the validator's reply to the query. The certificates of a
    /// verified answer are handed on to be applied; any other reply ends the
    /// download.
    pub fn replied(&mut self, reply: ValidatorReply) -> (action: DownloadAction)
        requires
            old(self).stage is Querying,
        ensures
            Self::after_replied(*old(self), reply, *final(self), action),
    {
        match certificates_from_reply(reply) {
            Some(certificates) => {
                self.stage = DownloadStage::Processing;
                DownloadAction::Process(certificates)
            },
            None => {
                self.stage = DownloadStage::Stopped;
                DownloadAction::Done
            },
        }
    }

    /// Whether the result of a batch may be reported to `processed`.
    #[verifier::when_used_as_spec(spec_made_progress)]
    pub fn made_progress(&self, info: &Option<ChainInfo>) -> (progress: bool)
        ensures
            progress == self.spec_made_progress(info),
    {
        match info {
            Some(info) => info.next_block_height.0 > self.start.0,
            None => true,
        }
    }

    /// Takes the result of applying the batch. The notifications are kept.
    /// A batch that applied nothing ends the download; one that applied
    /// something moves `start` to the height that the chain has reached, and
    /// the next batch is asked for while heights are wanted.
    pub fn processed(&mut self, result: WithNotifications<Option<ChainInfo>>) -> (action:
        DownloadAction)
        requires
            old(self).stage is Processing,
            old(self).made_progress(&result.value),
        ensures
            Self::after_processed(*old(self), result, *final(self), action),
            final(self).start.0 >= old(self).start.0,
    {
        match result.extend(&mut self.notifications) {
            Some(info) => {
                self.start = info.next_block_height;
                self.turn_to_range()
            },
            None => {
                self.stage = DownloadStage::Stopped;
                DownloadAction::Done
            },
        }
    }

    /// The notifications collected over the download.
    pub fn finish(self) -> (notifications: Vec<Notification>)
        ensures
            notifications == self.notifications,
    {
        self.notifications
    }
}

/// What to do after a look at the local chain, while downloading up to a
/// target height from several validators.
#[derive(Debug)]
pub enum DownloadStep {
    /// The chain has reached the target: this is its snapshot.
    Reached(ChainInfo),
    /// Download from this validator, then look at the local chain again.
    Try { validator: usize, downloader: RangeDownloader },
    /// Every validator was tried and the chain is still short of the target.
    Failed(LocalNodeError),
}

/// Whether the chain of the snapshot has reached the target height.
pub open spec fn reached(info: ChainInfo, target: BlockHeight) -> bool {
    target.0 <= info.next_block_height.0
}

/// What `download_step` decides.
pub open spec fn after_download_step(
    pre: ValidatorTrial,
    chain_id: ChainId,
    target: BlockHeight,
    info: ChainInfo,
    post: ValidatorTrial,
    step: DownloadStep,
) -> bool {
    &&& post.order == pre.order
    &&& post.count == pre.count
    &&& if reached(info, target) {
        post.position == pre.position && step == DownloadStep::Reached(info)
    } else if !pre.exhausted() {
        &&& post.position == pre.position + 1
        &&& step is Try
        &&& step->validator == pre.order@[pre.position as int]
        &&& step->validator < pre.count
        &&& step->downloader.chain_id == chain_id
        &&& step->downloader.start == info.next_block_height
        &&& step->downloader.stop == target
        &&& step->downloader.batch_cap == DEFAULT_BATCH_CAP
        &&& step->downloader.stage is Ready
        &&& step->downloader.notifications@ == Seq::<Notification>::empty()
    } else {
        &&& post.position == pre.position
        &&& step == DownloadStep::Failed(
            LocalNodeError::CannotDownloadCertificates {
                chain_id,
                target_next_block_height: target,
            },
        )
    }
}

/// Decides, from a fresh look at the local chain, how the download up to
/// `target` goes on.
///
/// Once the chain has reached the target no further validator is tried. While
/// it is short, the next validator of the order is tried, from the height
/// that the chain has reached. The download fails only when the chain is
/// short and no validator is left.
pub fn download_step(
    trial: &mut ValidatorTrial,
    chain_id: ChainId,
    target: BlockHeight,
    info: ChainInfo,
) -> (step: DownloadStep)
    requires
        old(trial).wf(),
    ensures
        final(trial).wf(),
        after_download_step(*old(trial), chain_id, target, info, *final(trial), step),
{
    if target.0 <= info.next_block_height.0 {
        return DownloadStep::Reached(info);
    }
    match trial.next() {
        Some(validator) => DownloadStep::Try {
            validator,
            downloader: RangeDownloader::new(chain_id, info.next_block_height, target),
        },
        None => DownloadStep::Failed(
            LocalNodeError::CannotDownloadCertificates {
                chain_id,
                target_next_block_height: target,
            },
        ),
    }
}

} // verus!
