//! Resolving dependencies: the code objects and blobs that certificates need,
//! from the cache, the storage or the validators.

use vstd::prelude::*;
use crate::data_types::{ChainInfoQuery, HashedBlob, HashedCertificateValue, ValidatorReply};
use crate::errors::{LocalNodeError, ViewError};
use crate::identifiers::{BlobId, BytecodeLocation, ChainId};
use crate::trial::ValidatorTrial;

verus! {

/// The query that asks a validator for one blob.
pub fn blob_query(chain_id: ChainId, blob_id: BlobId) -> (query: ChainInfoQuery)
    ensures
        query == (ChainInfoQuery {
            chain_id,
            request_sent_certificates_in_range: None,
            request_manager_values: false,
            request_blob: Some(blob_id),
            request_hashed_certificate_value: None,
        }),
{
    ChainInfoQuery::new(chain_id).with_blob(blob_id)
}

/// The query that asks a validator for the code object at `location`.
pub fn value_query(chain_id: ChainId, location: BytecodeLocation) -> (query: ChainInfoQuery)
    ensures
        query == (ChainInfoQuery {
            chain_id,
            request_sent_certificates_in_range: None,
            request_manager_values: false,
            request_blob: None,
            request_hashed_certificate_value: Some(location.certificate_hash),
        }),
{
    ChainInfoQuery::new(chain_id).with_hashed_certificate_value(location.certificate_hash)
}

/// The blob that a reply offers: that of a verified answer, if it holds one.
pub open spec fn spec_blob_from_reply(reply: ValidatorReply) -> Option<HashedBlob> {
    match reply.usable() {
        Some(info) => info.requested_blob,
        None => None,
    }
}

pub fn blob_from_reply(reply: ValidatorReply) -> (blob: Option<HashedBlob>)
    ensures
        blob == spec_blob_from_reply(reply),
{
    match reply.into_usable() {
        Some(info) => info.requested_blob,
        None => None,
    }
}

/// The code object that a reply offers: that of a verified answer, if it
/// holds one.
pub open spec fn spec_value_from_reply(reply: ValidatorReply) -> Option<HashedCertificateValue> {
    match reply.usable() {
        Some(info) => info.requested_hashed_certificate_value,
        None => None,
    }
}

pub fn value_from_reply(reply: ValidatorReply) -> (value: Option<HashedCertificateValue>)
    ensures
        value == spec_value_from_reply(reply),
{
    match reply.into_usable() {
        Some(info) => info.requested_hashed_certificate_value,
        None => None,
    }
}

/// The items that were found, in the order of the attempts.
pub open spec fn found<T>(attempts: Seq<Option<T>>) -> Seq<T>
    decreases attempts.len(),
{
    if attempts.len() == 0 {
        Seq::empty()
    } else {
        match attempts.last() {
            Some(item) => found(attempts.drop_last()).push(item),
            None => found(attempts.drop_last()),
        }
    }
}

/// Gathers what a round of fetches found, one attempt per item asked for:
/// the items that came back, in order. An attempt that found nothing leaves
/// no trace, so the result is shorter than the request exactly when some
/// item is missing.
pub fn collect_found<T: Copy>(attempts: &Vec<Option<T>>) -> (items: Vec<T>)
    ensures
        items@ == found(attempts@),
{
    let mut items: Vec<T> = Vec::new();
    let mut index: usize = 0;
    while index < attempts.len()
        invariant
            index <= attempts@.len(),
            items@ == found(attempts@.take(index as int)),
        decreases attempts@.len() - index,
    {
        proof {
            assert(attempts@.take(index + 1).drop_last() =~= attempts@.take(index as int));
        }
        if let Some(item) = attempts[index] {
            items.push(item);
        }
        index = index + 1;
    }
    proof {
        assert(attempts@.take(index as int) =~= attempts@);
    }
    items
}

/// No more items are found than were asked for, and as many only if every
/// attempt found its item.
pub proof fn found_all_or_fewer<T>(attempts: Seq<Option<T>>)
    ensures
        found(attempts).len() <= attempts.len(),
        found(attempts).len() == attempts.len() <==> forall|i: int|
            0 <= i < attempts.len() ==> (#[trigger] attempts[i]) is Some,
    decreases attempts.len(),
{
    if attempts.len() > 0 {
        let rest = attempts.drop_last();
        found_all_or_fewer(rest);
        assert forall|i: int| 0 <= i < rest.len() implies rest[i] == attempts[i] by {}
        if found(attempts).len() == attempts.len() {
            assert forall|i: int| 0 <= i < attempts.len() implies (#[trigger] attempts[i])
                is Some by {
                if i < rest.len() {
                    assert(rest[i] is Some);
                }
            }
        }
        if forall|i: int| 0 <= i < attempts.len() ==> (#[trigger] attempts[i]) is Some {
            assert(attempts.last() is Some);
            assert forall|i: int| 0 <= i < rest.len() implies (#[trigger] rest[i]) is Some by {
                assert(attempts[i] is Some);
            }
        }
    }
}

/// What to do next while validators are tried one after another for one item.
#[derive(Debug)]
pub enum TrialStep<T> {
    /// The validator tried last had the item.
    Found(T),
    /// Ask this validator.
    Try(usize),
    /// Every validator was asked and none had the item.
    NotFound,
}

/// What `trial_step` decides.
pub open spec fn after_trial_step<T>(
    pre: ValidatorTrial,
    previous: Option<T>,
    post: ValidatorTrial,
    step: TrialStep<T>,
) -> bool {
    &&& post.order == pre.order
    &&& post.count == pre.count
    &&& match previous {
        Some(item) => post.position == pre.position && step == TrialStep::Found(item),
        None => if pre.exhausted() {
            post.position == pre.position && step is NotFound
        } else {
            &&& post.position == pre.position + 1
            &&& step == TrialStep::<T>::Try(pre.order@[pre.position as int])
            &&& pre.order@[pre.position as int] < pre.count
        },
    }
}

/// Decides how the search for one item goes on, from what the validator
/// tried last gave (`None` before the first, too). The first item found ends
/// the search; absence is reported only when no validator is left.
pub fn trial_step<T>(trial: &mut ValidatorTrial, previous: Option<T>) -> (step: TrialStep<T>)
    requires
        old(trial).wf(),
    ensures
        final(trial).wf(),
        after_trial_step(*old(trial), previous, *final(trial), step),
{
    match previous {
        Some(item) => TrialStep::Found(item),
        None => match trial.next() {
            Some(validator) => TrialStep::Try(validator),
            None => TrialStep::NotFound,
        },
    }
}

/// What to do after the storage was asked for a code object.
#[derive(Debug)]
pub enum StorageDecision {
    /// The storage had it.
    Found(HashedCertificateValue),
    /// The storage does not have it: ask the validators.
    Download,
    /// The storage failed otherwise.
    Fail(LocalNodeError),
}

pub open spec fn spec_after_storage_read(
    read: Result<HashedCertificateValue, ViewError>,
) -> StorageDecision {
    match read {
        Ok(value) => StorageDecision::Found(value),
        Err(ViewError::NotFound(_)) => StorageDecision::Download,
        Err(error) => StorageDecision::Fail(LocalNodeError::ViewError(error)),
    }
}

/// Decides from the storage's answer whether the validators are asked: only
/// when the storage reports that the entry does not exist. Any other failure
/// of the storage is an error.
pub fn after_storage_read(read: Result<HashedCertificateValue, ViewError>) -> (decision:
    StorageDecision)
    ensures
        decision == spec_after_storage_read(read),
{
    match read {
        Ok(value) => StorageDecision::Found(value),
        Err(ViewError::NotFound(_)) => StorageDecision::Download,
        Err(error) => StorageDecision::Fail(LocalNodeError::ViewError(error)),
    }
}

pub open spec fn spec_after_storage_write(
    value: HashedCertificateValue,
    written: Result<(), ViewError>,
) -> Result<Option<HashedCertificateValue>, LocalNodeError> {
    match written {
        Ok(_) => Ok(Some(value)),
        Err(error) => Err(LocalNodeError::ViewError(error)),
    }
}

/// The result for a downloaded code object, once the storage was asked to
/// keep it: the object, unless the storage failed.
pub fn after_storage_write(value: HashedCertificateValue, written: Result<(), ViewError>) -> (result:
    Result<Option<HashedCertificateValue>, LocalNodeError>)
    ensures
        result == spec_after_storage_write(value, written),
{
    match written {
        Ok(_) => Ok(Some(value)),
        Err(error) => Err(LocalNodeError::ViewError(error)),
    }
}

/// What the cache answered for one code object that is wanted.
#[derive(Clone, Copy, Debug, PartialEq, Eq)]
pub struct CacheLookup {
    pub location: BytecodeLocation,
    pub chain_id: ChainId,
    /// The object, if the cache held it.
    pub cached: Option<HashedCertificateValue>,
}

/// The code objects that the cache held, in the order of the lookups.
pub open spec fn cache_hits(lookups: Seq<CacheLookup>) -> Seq<HashedCertificateValue>
    decreases lookups.len(),
{
    if lookups.len() == 0 {
        Seq::empty()
    } else {
        match lookups.last().cached {
            Some(value) => cache_hits(lookups.drop_last()).push(value),
            None => cache_hits(lookups.drop_last()),
        }
    }
}

/// The places of the code objects that the cache did not hold, each with its
/// chain, in the order of the lookups.
pub open spec fn cache_misses(lookups: Seq<CacheLookup>) -> Seq<(BytecodeLocation, ChainId)>
    decreases lookups.len(),
{
    if lookups.len() == 0 {
        Seq::empty()
    } else {
        match lookups.last().cached {
            Some(_) => cache_misses(lookups.drop_last()),
            None => cache_misses(lookups.drop_last()).push(
                (lookups.last().location, lookups.last().chain_id),
            ),
        }
    }
}

/// Parts the code objects that are wanted into those that the cache held
/// and those that are still to be resolved from the storage or the
/// validators.
pub fn split_cached(lookups: &Vec<CacheLookup>) -> (split: (
    Vec<HashedCertificateValue>,
    Vec<(BytecodeLocation, ChainId)>,
))
    ensures
        split.0@ == cache_hits(lookups@),
        split.1@ == cache_misses(lookups@),
{
    let mut hits: Vec<HashedCertificateValue> = Vec::new();
    let mut misses: Vec<(BytecodeLocation, ChainId)> = Vec::new();
    let mut index: usize = 0;
    while index < lookups.len()
        invariant
            index <= lookups@.len(),
            hits@ == cache_hits(lookups@.take(index as int)),
            misses@ == cache_misses(lookups@.take(index as int)),
        decreases lookups@.len() - index,
    {
        proof {
            assert(lookups@.take(index + 1).drop_last() =~= lookups@.take(index as int));
        }
        let lookup = lookups[index];
        match lookup.cached {
            Some(value) => hits.push(value),
            None => misses.push((lookup.location, lookup.chain_id)),
        }
        index = index + 1;
    }
    proof {
        assert(lookups@.take(index as int) =~= lookups@);
    }
    (hits, misses)
}

/// The index of the first failed resolution, or the number of resolutions
/// if none failed.
pub open spec fn first_failure(
    resolutions: Seq<Result<Option<HashedCertificateValue>, LocalNodeError>>,
) -> int
    decreases resolutions.len(),
{
    if resolutions.len() == 0 || resolutions[0] is Err {
        0
    } else {
        1 + first_failure(resolutions.drop_first())
    }
}

/// The code objects that the resolutions gave, in order; a resolution that
/// found nothing, or failed, gives none.
pub open spec fn resolved(
    resolutions: Seq<Result<Option<HashedCertificateValue>, LocalNodeError>>,
) -> Seq<HashedCertificateValue>
    decreases resolutions.len(),
{
    if resolutions.len() == 0 {
        Seq::empty()
    } else {
        match resolutions.last() {
            Ok(Some(value)) => resolved(resolutions.drop_last()).push(value),
            _ => resolved(resolutions.drop_last()),
        }
    }
}

/// The index `k` is that of the first failure if everything before it
/// succeeded and it is itself a failure or the end.
pub proof fn first_failure_is(
    resolutions: Seq<Result<Option<HashedCertificateValue>, LocalNodeError>>,
    k: int,
)
    requires
        0 <= k <= resolutions.len(),
        forall|j: int| 0 <= j < k ==> (#[trigger] resolutions[j]) is Ok,
        k < resolutions.len() ==> resolutions[k] is Err,
    ensures
        first_failure(resolutions) == k,
    decreases k,
{
    if k > 0 {
        assert(resolutions[0] is Ok);
        let rest = resolutions.drop_first();
        assert forall|j: int| 0 <= j < k - 1 implies (#[trigger] rest[j]) is Ok by {
            assert(resolutions[j + 1] is Ok);
        }
        first_failure_is(rest, k - 1);
    }
}

/// What the resolutions of a batch come to.
#[derive(Debug)]
pub struct Gathered {
    /// The code objects resolved before the first failure, in order: they are
    /// to be put in the cache.
    pub fresh: Vec<HashedCertificateValue>,
    /// The code objects of the batch if no resolution failed: those that the
    /// cache held, then the fresh ones. Else the first failure.
    pub outcome: Result<Vec<HashedCertificateValue>, LocalNodeError>,
}

/// What `gather` returns.
pub open spec fn after_gather(
    cached: Vec<HashedCertificateValue>,
    resolutions: Vec<Result<Option<HashedCertificateValue>, LocalNodeError>>,
    gathered: Gathered,
) -> bool {
    let k = first_failure(resolutions@);
    &&& 0 <= k <= resolutions@.len()
    &&& gathered.fresh@ == resolved(resolutions@.take(k))
    &&& if k == resolutions@.len() {
        gathered.outcome is Ok && gathered.outcome->Ok_0@ == cached@ + resolved(resolutions@)
    } else {
        gathered.outcome == Err::<Vec<HashedCertificateValue>, LocalNodeError>(
            resolutions@[k]->Err_0,
        )
    }
}

/// Puts together the code objects that the cache held and what the
/// resolutions of the others gave. An object that could not be resolved is
/// left out and fails nothing; only a resolution that itself failed fails
/// the batch, and the first such failure is the one reported.
pub fn gather(
    cached: Vec<HashedCertificateValue>,
    resolutions: Vec<Result<Option<HashedCertificateValue>, LocalNodeError>>,
) -> (gathered: Gathered)
    ensures
        after_gather(cached, resolutions, gathered),
{
    let mut remaining = resolutions;
    let mut values = cached;
    let mut fresh: Vec<HashedCertificateValue> = Vec::new();
    let mut index: usize = 0;
    while index < remaining.len()
        invariant
            remaining@ == resolutions@,
            index <= resolutions@.len(),
            forall|j: int| 0 <= j < index ==> (#[trigger] resolutions@[j]) is Ok,
            fresh@ == resolved(resolutions@.take(index as int)),
            values@ == cached@ + fresh@,
        decreases resolutions@.len() - index,
    {
        proof {
            assert(resolutions@.take(index + 1).drop_last() =~= resolutions@.take(index as int));
        }
        let failed = match &remaining[index] {
            Ok(Some(value)) => {
                fresh.push(*value);
                values.push(*value);
                false
            },
            Ok(None) => false,
            Err(_) => true,
        };
        if failed {
            proof {
                first_failure_is(resolutions@, index as int);
            }
            let failure = remaining.remove(index);
            match failure {
                Err(error) => {
                    return Gathered { fresh, outcome: Err(error) };
                },
                Ok(_) => {},
            }
        }
        index = index + 1;
    }
    proof {
        first_failure_is(resolutions@, index as int);
        assert(resolutions@.take(index as int) =~= resolutions@);
    }
    Gathered { fresh, outcome: Ok(values) }
}

} // verus!
