//! What holds of the synchronization rules as a whole, whatever the worker,
//! the storage and the validators answer.

use vstd::prelude::*;
use crate::data_types::{ChainInfo, HashedBlob, HashedCertificateValue, ValidatorReply};
use crate::download::{
    after_download_step, reached, spec_certificates_from_reply, DownloadAction, DownloadStage,
    DownloadStep, RangeDownloader,
};
use crate::errors::LocalNodeError;
use crate::identifiers::{BlockHeight, ChainId};
use crate::notifications::{bare, carried, WithNotifications};
use crate::processing::{outcome_of, CertificateProcessor, ProcessAction, ProcessStage};
use crate::resolve::{
    after_gather, after_trial_step, first_failure_is, resolved, spec_blob_from_reply,
    spec_value_from_reply, Gathered, TrialStep,
};
use crate::synchronize::{ChainSynchronizer, SyncAction, SyncStage};
use crate::trial::{order_means_covers_once, ValidatorTrial};

verus! {

/// Whether `post` may follow `pre` in one step of a batch: by its start, by
/// the result of an attempt, or by what a round of fetches found.
pub open spec fn processor_step(pre: CertificateProcessor, post: CertificateProcessor) -> bool {
    ||| exists|action: ProcessAction|
        pre.stage is Ready && CertificateProcessor::after_start(pre, post, action)
    ||| exists|
        result: Result<WithNotifications<ChainInfo>, WithNotifications<LocalNodeError>>,
        action: ProcessAction,
    |
        (pre.stage is FirstAttempt || pre.stage is Retry) && CertificateProcessor::after_applied(
            pre,
            result,
            post,
            action,
        )
    ||| exists|
        values: Vec<HashedCertificateValue>,
        blobs: Vec<HashedBlob>,
        action: ProcessAction,
    |
        pre.stage is Fetching && CertificateProcessor::after_fetched(
            pre,
            values,
            blobs,
            post,
            action,
        )
}

/// Every step of a batch keeps the batch well formed: whatever the worker and
/// the validator answer, only confirmed certificates of the chain are ever
/// applied, in the order given, and a snapshot is held exactly when one was
/// applied.
pub proof fn batch_stays_well_formed(pre: CertificateProcessor, post: CertificateProcessor)
    requires
        pre.wf(),
        processor_step(pre, post),
    ensures
        post.wf(),
{
}

/// No step of a batch loses a notification, changes the certificates or
/// goes back: the notifications collected before the step open those
/// collected after it, and the number of certificates applied grows by one
/// or stays.
pub proof fn batch_keeps_notifications_and_order(
    pre: CertificateProcessor,
    post: CertificateProcessor,
)
    requires
        processor_step(pre, post),
    ensures
        pre.notifications@.is_prefix_of(post.notifications@),
        post.certificates@ == pre.certificates@,
        post.chain_id == pre.chain_id,
        post.position == pre.position || post.position == pre.position + 1,
        post.position == pre.position ==> post.info == pre.info,
{
}

/// The notifications of an attempt are kept when the attempt failed, too:
/// after the result of an attempt was taken, the batch holds what it held
/// before, followed by what the result carried, whether the result is a
/// success or a failure and whether the batch goes on or ends.
pub proof fn failure_keeps_notifications(
    pre: CertificateProcessor,
    result: Result<WithNotifications<ChainInfo>, WithNotifications<LocalNodeError>>,
    post: CertificateProcessor,
    action: ProcessAction,
)
    requires
        CertificateProcessor::after_applied(pre, result, post, action),
    ensures
        post.notifications@ == pre.notifications@ + carried(result),
        result is Err ==> post.info == pre.info && post.position == pre.position,
{
}

/// How many steps a batch can still take at most: three for each
/// certificate that is not applied yet, and what the stage allows.
pub open spec fn processor_steps_left(processor: CertificateProcessor) -> int {
    3 * (processor.certificates@.len() - processor.position) + match processor.stage {
        ProcessStage::Ready => 4int,
        ProcessStage::FirstAttempt => 3int,
        ProcessStage::Fetching => 2int,
        ProcessStage::Retry => 1int,
        ProcessStage::Stopped => 0int,
    }
}

/// A batch ends: every step brings it nearer to its end, so it takes at most
/// three steps for each certificate and four more, whatever is answered.
pub proof fn batch_ends(pre: CertificateProcessor, post: CertificateProcessor)
    requires
        pre.wf(),
        processor_step(pre, post),
    ensures
        0 <= processor_steps_left(post) < processor_steps_left(pre),
{
}

/// A certificate is retried at most once: when the attempt with the fetched
/// payloads fails, in whatever way, the batch ends before that certificate.
pub proof fn retry_is_not_repeated(
    pre: CertificateProcessor,
    result: Result<WithNotifications<ChainInfo>, WithNotifications<LocalNodeError>>,
    post: CertificateProcessor,
    action: ProcessAction,
)
    requires
        pre.stage is Retry,
        result is Err,
        CertificateProcessor::after_applied(pre, result, post, action),
    ensures
        post.stage is Stopped,
        action is Done,
        post.position == pre.position,
        post.info == pre.info,
{
}

/// A first attempt that reports missing dependencies leads to one round of
/// fetches for exactly what it reported; if the round brings every item, the
/// same certificate is applied again with them; if it brings fewer, the
/// batch ends before that certificate.
pub proof fn missing_dependencies_are_fetched_once(
    pre: CertificateProcessor,
    result: Result<WithNotifications<ChainInfo>, WithNotifications<LocalNodeError>>,
    fetching: CertificateProcessor,
    fetch: ProcessAction,
    values: Vec<HashedCertificateValue>,
    blobs: Vec<HashedBlob>,
    post: CertificateProcessor,
    action: ProcessAction,
)
    requires
        pre.stage is FirstAttempt,
        outcome_of(bare(result)).is_missing(),
        CertificateProcessor::after_applied(pre, result, fetching, fetch),
        CertificateProcessor::after_fetched(fetching, values, blobs, post, action),
    ensures
        fetch is Fetch,
        fetch->locations@ == outcome_of(bare(result)).locations(),
        fetch->blob_ids@ == outcome_of(bare(result)).blob_ids(),
        post.position == pre.position,
        post.info == pre.info,
        values@.len() == fetch->locations@.len() && blobs@.len() == fetch->blob_ids@.len() ==> {
            &&& post.stage is Retry
            &&& action is Apply
            &&& action->certificate == pre.certificates@[pre.position as int]
            &&& action->values == values
            &&& action->blobs == blobs
        },
        values@.len() != fetch->locations@.len() || blobs@.len() != fetch->blob_ids@.len() ==> {
            &&& post.stage is Stopped
            &&& action is Done
        },
{
}

/// An answer whose signature check failed is never used, whatever it holds:
/// it offers no certificates, no blob and no code object, it ends a download
/// from its validator, and it ends an attempt to synchronize from its
/// validator with nothing of it taken over.
pub proof fn unverified_answer_is_never_used(
    info: ChainInfo,
    downloader: RangeDownloader,
    downloader_after: RangeDownloader,
    download_action: DownloadAction,
    synchronizer: ChainSynchronizer,
    synchronizer_after: ChainSynchronizer,
    sync_action: SyncAction,
)
    requires
        RangeDownloader::after_replied(
            downloader,
            ValidatorReply::Answered { info, verified: false },
            downloader_after,
            download_action,
        ),
        ChainSynchronizer::after_replied(
            synchronizer,
            ValidatorReply::Answered { info, verified: false },
            synchronizer_after,
            sync_action,
        ),
    ensures
        (ValidatorReply::Answered { info, verified: false }).usable() is None,
        spec_certificates_from_reply(ValidatorReply::Answered { info, verified: false }) is None,
        spec_blob_from_reply(ValidatorReply::Answered { info, verified: false }) is None,
        spec_value_from_reply(ValidatorReply::Answered { info, verified: false }) is None,
        downloader_after.stage is Stopped,
        download_action is Done,
        downloader_after.start == downloader.start,
        synchronizer_after.stage is Stopped,
        sync_action is Done,
        synchronizer_after.manager == synchronizer.manager,
        synchronizer_after.notifications@ == synchronizer.notifications@,
{
}

/// The height from which a download goes on never falls: the result of a
/// batch that applied something moves it strictly up, and nothing else moves
/// it.
pub proof fn download_height_never_falls(
    pre: RangeDownloader,
    result: WithNotifications<Option<ChainInfo>>,
    post: RangeDownloader,
    action: DownloadAction,
)
    requires
        pre.made_progress(&result.value),
        RangeDownloader::after_processed(pre, result, post, action),
    ensures
        post.start.0 >= pre.start.0,
        result.value is Some ==> post.start.0 > pre.start.0,
        result.value is None ==> post.start == pre.start && post.stage is Stopped,
        pre.notifications@.is_prefix_of(post.notifications@),
{
}

/// A download from one validator ends: after the result of a batch, either
/// it is over, or fewer heights are wanted than before and the next batch is
/// asked for.
pub proof fn download_ends(
    pre: RangeDownloader,
    result: WithNotifications<Option<ChainInfo>>,
    post: RangeDownloader,
    action: DownloadAction,
)
    requires
        pre.start.0 < pre.stop.0,
        pre.made_progress(&result.value),
        RangeDownloader::after_processed(pre, result, post, action),
    ensures
        post.stage is Stopped || (post.stage is Querying && post.stop.0 - post.start.0
            < pre.stop.0 - pre.start.0),
        post.stage is Querying ==> action is Query,
        post.stage is Stopped <==> action is Done,
{
}

/// The notifications of a locked certificate that was applied are kept, as
/// those of every other successful application are: the attempt ends with
/// what it held before, followed by what the application produced. Only a
/// refusal's notifications are abandoned.
pub proof fn applied_locked_certificate_keeps_notifications(
    pre: ChainSynchronizer,
    result: Result<WithNotifications<ChainInfo>, WithNotifications<LocalNodeError>>,
    post: ChainSynchronizer,
    action: SyncAction,
)
    requires
        ChainSynchronizer::after_locked(pre, result, post, action),
    ensures
        result is Ok ==> post.notifications@ == pre.notifications@ + result->Ok_0.notifications@,
        result is Err ==> post.notifications@ == pre.notifications@,
        post.stage is Stopped,
        action is Done,
{
}

/// How far an attempt to synchronize is from its end.
pub open spec fn synchronizer_steps_left(synchronizer: ChainSynchronizer) -> int {
    match synchronizer.stage {
        SyncStage::Ready => 5,
        SyncStage::Querying => 4,
        SyncStage::Processing => 3,
        SyncStage::Proposing => 2,
        SyncStage::Locking => 1,
        SyncStage::Stopped => 0,
    }
}

/// Whether `post` and `action` may follow `pre` in one step of an attempt to
/// synchronize, after its start.
pub open spec fn synchronizer_step(
    pre: ChainSynchronizer,
    post: ChainSynchronizer,
    action: SyncAction,
) -> bool {
    ||| exists|reply: ValidatorReply|
        pre.stage is Querying && ChainSynchronizer::after_replied(pre, reply, post, action)
    ||| exists|result: WithNotifications<Option<ChainInfo>>|
        pre.stage is Processing && ChainSynchronizer::after_processed(pre, result, post, action)
    ||| pre.stage is Proposing && ChainSynchronizer::same_progress(pre, post)
        && ChainSynchronizer::turned_to_locked(post, action)
    ||| exists|result: Result<WithNotifications<ChainInfo>, WithNotifications<LocalNodeError>>|
        pre.stage is Locking && ChainSynchronizer::after_locked(pre, result, post, action)
}

/// An attempt to synchronize from one validator takes each of its steps at
/// most once, in one order: the query, the certificates, the proposal, the
/// locked certificate. So it ends after five steps at most, and no step
/// loses a notification.
pub proof fn synchronizer_moves_forward(
    pre: ChainSynchronizer,
    post: ChainSynchronizer,
    action: SyncAction,
)
    requires
        synchronizer_step(pre, post, action),
    ensures
        synchronizer_steps_left(post) < synchronizer_steps_left(pre),
        post.chain_id == pre.chain_id,
        pre.notifications@.is_prefix_of(post.notifications@),
        post.stage is Stopped <==> action is Done,
{
}

/// Downloading up to a height that the chain has reached already does
/// nothing: no validator is tried, and the answer is the snapshot that was
/// looked at, however often this is done.
pub proof fn reached_target_tries_no_validator(
    pre: ValidatorTrial,
    chain_id: ChainId,
    target: BlockHeight,
    info: ChainInfo,
    post: ValidatorTrial,
    step: DownloadStep,
)
    requires
        reached(info, target),
        after_download_step(pre, chain_id, target, info, post, step),
    ensures
        step == DownloadStep::Reached(info),
        post.position == pre.position,
        post.order == pre.order,
{
}

/// Whether each of the validators was handed out already.
pub open spec fn tried_every_validator(trial: ValidatorTrial) -> bool {
    forall|validator: usize|
        validator < trial.count ==> #[trigger] trial.order@.take(trial.position as int).contains(
            validator,
        )
}

/// Once the order is exhausted, every validator was tried: the order holds
/// each of them, so none is passed over, whatever the order is.
pub proof fn exhausted_order_tried_every_validator(trial: ValidatorTrial)
    requires
        trial.wf(),
        trial.exhausted(),
    ensures
        tried_every_validator(trial),
{
    order_means_covers_once(trial.order@, trial.count as nat);
    assert(trial.order@.take(trial.position as int) =~= trial.order@);
}

/// A download fails only when the chain is short of the target and every
/// validator was tried; while one is left, it is tried next, in whatever
/// order they stand.
pub proof fn download_fails_only_when_exhausted(
    pre: ValidatorTrial,
    chain_id: ChainId,
    target: BlockHeight,
    info: ChainInfo,
    post: ValidatorTrial,
    step: DownloadStep,
)
    requires
        pre.wf(),
        after_download_step(pre, chain_id, target, info, post, step),
    ensures
        step is Failed <==> !reached(info, target) && pre.exhausted(),
        step is Failed ==> tried_every_validator(pre),
        step is Try <==> !reached(info, target) && !pre.exhausted(),
        step is Failed ==> step->Failed_0 == (LocalNodeError::CannotDownloadCertificates {
            chain_id,
            target_next_block_height: target,
        }),
{
    if pre.exhausted() {
        exhausted_order_tried_every_validator(pre);
    }
}

/// An item is reported absent only when every validator was asked for it.
pub proof fn absence_means_every_validator_was_asked<T>(
    pre: ValidatorTrial,
    previous: Option<T>,
    post: ValidatorTrial,
    step: TrialStep<T>,
)
    requires
        pre.wf(),
        after_trial_step(pre, previous, post, step),
    ensures
        step is NotFound <==> previous is None && pre.exhausted(),
        step is NotFound ==> tried_every_validator(pre),
        previous is Some ==> step == TrialStep::Found(previous->0) && post.position
            == pre.position,
{
    if pre.exhausted() {
        exhausted_order_tried_every_validator(pre);
    }
}

/// A batch of code objects in which no resolution failed gives every object
/// that was resolved, after those that the cache held, and is no failure:
/// an object that nobody has is left out and fails nothing.
pub proof fn unresolved_values_fail_nothing(
    cached: Vec<HashedCertificateValue>,
    resolutions: Vec<Result<Option<HashedCertificateValue>, LocalNodeError>>,
    gathered: Gathered,
)
    requires
        forall|i: int| 0 <= i < resolutions@.len() ==> (#[trigger] resolutions@[i]) is Ok,
        after_gather(cached, resolutions, gathered),
    ensures
        gathered.outcome is Ok,
        gathered.outcome->Ok_0@ == cached@ + resolved(resolutions@),
        gathered.fresh@ == resolved(resolutions@),
{
    first_failure_is(resolutions@, resolutions@.len() as int);
    assert(resolutions@.take(resolutions@.len() as int) =~= resolutions@);
}

} // verus!
