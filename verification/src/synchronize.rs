//! Bringing the local chain up to what one validator reports: its
//! certificates from the local height on, then the proposal and the locked
//! certificate of the round in progress.

use vstd::prelude::*;
use crate::data_types::{
    BlockHeightRange, BlockProposal, Certificate, ChainInfo, ChainInfoQuery, ChainManagerInfo,
    Notification, ValidatorReply,
};
use crate::errors::LocalNodeError;
use crate::identifiers::ChainId;
use crate::notifications::{try_extend, WithNotifications};

verus! {

/// What the synchronizer waits for.
#[derive(Clone, Copy, Debug, PartialEq, Eq)]
pub enum SyncStage {
    /// Nothing yet: the attempt was not started.
    Ready,
    /// The validator's reply to the query.
    Querying,
    /// The result of applying the validator's certificates.
    Processing,
    /// The local node's word on the validator's pending proposal.
    Proposing,
    /// The local node's word on the validator's locked certificate.
    Locking,
    /// Nothing more: the attempt is over.
    Stopped,
}

/// What the caller is to do next.
#[derive(Debug)]
pub enum SyncAction {
    /// Send the query to the validator and report the reply.
    Query(ChainInfoQuery),
    /// Apply these certificates in order and report the result of the batch.
    Process(Vec<Certificate>),
    /// Hand the proposal to the local node and report that it was done.
    Propose(BlockProposal),
    /// Apply the certificate without payloads and report that it was done.
    ApplyLocked(Certificate),
    /// The attempt is over.
    Done,
}

/// The query that asks a validator for everything from `info`'s height on,
/// and for the round in progress.
pub open spec fn sync_query(chain_id: ChainId, info: ChainInfo) -> ChainInfoQuery {
    ChainInfoQuery {
        chain_id,
        request_sent_certificates_in_range: Some(
            BlockHeightRange { start: info.next_block_height, limit: None },
        ),
        request_manager_values: true,
        request_blob: None,
        request_hashed_certificate_value: None,
    }
}

/// The pending proposal to adopt: the one reported, if it is for this chain.
pub open spec fn proposal_to_adopt(manager: ChainManagerInfo, chain_id: ChainId) -> Option<
    BlockProposal,
> {
    match manager.requested_proposed {
        Some(proposal) if proposal.chain_id == chain_id => Some(proposal),
        _ => None,
    }
}

/// The locked certificate to apply: the one reported, if it is a validated
/// one of this chain.
pub open spec fn locked_to_apply(manager: ChainManagerInfo, chain_id: ChainId) -> Option<
    Certificate,
> {
    match manager.requested_locked {
        Some(certificate) if certificate.is_validated() && certificate.chain_id == chain_id => Some(
            certificate,
        ),
        _ => None,
    }
}

/// One attempt to synchronize a chain from one validator.
#[derive(Debug)]
pub struct ChainSynchronizer {
    pub chain_id: ChainId,
    pub stage: SyncStage,
    /// The round in progress, as the validator's verified answer reported it.
    pub manager: ChainManagerInfo,
    pub notifications: Vec<Notification>,
}

impl ChainSynchronizer {
    /// The attempt ends where it stands.
    pub open spec fn halted(post: Self, action: SyncAction) -> bool {
        post.stage is Stopped && action is Done
    }

    /// The locked certificate is applied if there is one to apply; else the
    /// attempt is over.
    pub open spec fn turned_to_locked(post: Self, action: SyncAction) -> bool {
        match locked_to_apply(post.manager, post.chain_id) {
            Some(certificate) => post.stage is Locking && action == SyncAction::ApplyLocked(
                certificate,
            ),
            None => Self::halted(post, action),
        }
    }

    /// The pending proposal is adopted if there is one to adopt; else the
    /// locked certificate is turned to.
    pub open spec fn turned_to_round(post: Self, action: SyncAction) -> bool {
        match proposal_to_adopt(post.manager, post.chain_id) {
            Some(proposal) => post.stage is Proposing && action == SyncAction::Propose(proposal),
            None => Self::turned_to_locked(post, action),
        }
    }

    /// What `replied` does with a reply.
    pub open spec fn after_replied(
        pre: Self,
        reply: ValidatorReply,
        post: Self,
        action: SyncAction,
    ) -> bool {
        &&& post.chain_id == pre.chain_id
        &&& post.notifications@ == pre.notifications@
        &&& match reply.usable() {
            None => post.manager == pre.manager && Self::halted(post, action),
            Some(info) => {
                &&& post.manager == info.manager
                &&& if info.requested_sent_certificates@.len() > 0 {
                    post.stage is Processing && action == SyncAction::Process(
                        info.requested_sent_certificates,
                    )
                } else {
                    Self::turned_to_round(post, action)
                }
            },
        }
    }

    /// What `processed` does with the result of a batch.
    pub open spec fn after_processed(
        pre: Self,
        result: WithNotifications<Option<ChainInfo>>,
        post: Self,
        action: SyncAction,
    ) -> bool {
        &&& post.chain_id == pre.chain_id
        &&& post.manager == pre.manager
        &&& post.notifications@ == pre.notifications@ + result.notifications@
        &&& if result.value is Some {
            Self::turned_to_round(post, action)
        } else {
            Self::halted(post, action)
        }
    }

    /// The notifications that the result of applying the locked certificate
    /// adds: those of a success, none of a refusal.
    pub open spec fn kept_of_locked(
        result: Result<WithNotifications<ChainInfo>, WithNotifications<LocalNodeError>>,
    ) -> Seq<Notification> {
        match result {
            Ok(applied) => applied.notifications@,
            Err(_) => Seq::empty(),
        }
    }

    /// What `locked` does with the result of applying the locked certificate.
    pub open spec fn after_locked(
        pre: Self,
        result: Result<WithNotifications<ChainInfo>, WithNotifications<LocalNodeError>>,
        post: Self,
        action: SyncAction,
    ) -> bool {
        &&& post.chain_id == pre.chain_id
        &&& post.manager == pre.manager
        &&& post.notifications@ == pre.notifications@ + Self::kept_of_locked(result)
        &&& Self::halted(post, action)
    }

    /// `post` is `pre` but for the stage.
    pub open spec fn same_progress(pre: Self, post: Self) -> bool {
        &&& post.chain_id == pre.chain_id
        &&& post.manager == pre.manager
        &&& post.notifications@ == pre.notifications@
    }

    /// An attempt that was not started.
    pub fn new(chain_id: ChainId) -> (synchronizer: Self)
        ensures
            synchronizer.chain_id == chain_id,
            synchronizer.stage is Ready,
            synchronizer.manager == (ChainManagerInfo {
                requested_proposed: None,
                requested_locked: None,
            }),
            synchronizer.notifications@ == Seq::<Notification>::empty(),
    {
        ChainSynchronizer {
            chain_id,
            stage: SyncStage::Ready,
            manager: ChainManagerInfo { requested_proposed: None, requested_locked: None },
            notifications: Vec::new(),
        }
    }

    /// Starts the attempt from the local snapshot: asks the validator for the
    /// certificates from the local height on, without a limit, and for the
    /// round in progress.
    pub fn start(&mut self, local_info: &ChainInfo) -> (action: SyncAction)
        requires
            old(self).stage is Ready,
        ensures
            Self::same_progress(*old(self), *final(self)),
            final(self).stage is Querying,
            action == SyncAction::Query(sync_query(old(self).chain_id, *local_info)),
    {
        let range = BlockHeightRange { start: local_info.next_block_height, limit: None };
        self.stage = SyncStage::Querying;
        SyncAction::Query(
            ChainInfoQuery::new(self.chain_id).with_sent_certificates_in_range(
                range,
            ).with_manager_values(),
        )
    }

    fn turn_to_locked(&mut self) -> (action: SyncAction)
        ensures
            Self::same_progress(*old(self), *final(self)),
            Self::turned_to_locked(*final(self), action),
    {
        if let Some(certificate) = self.manager.requested_locked {
            if certificate.is_validated() && certificate.chain_id.0 == self.chain_id.0 {
                self.stage = SyncStage::Locking;
                return SyncAction::ApplyLocked(certificate);
            }
        }
        self.stage = SyncStage::Stopped;
        SyncAction::Done
    }

    fn turn_to_round(&mut self) -> (action: SyncAction)
        ensures
            Self::same_progress(*old(self), *final(self)),
            Self::turned_to_round(*final(self), action),
    {
        if let Some(proposal) = self.manager.requested_proposed {
            if proposal.chain_id.0 == self.chain_id.0 {
                self.stage = SyncStage::Proposing;
                return SyncAction::Propose(proposal);
            }
        }
        self.turn_to_locked()
    }

    /// Takes the validator's reply to the query.
    ///
    /// A failed call, and an answer that failed the check, end the attempt:
    /// nothing of such an answer is used. Of a verified answer the
    /// certificates are handed on to be applied, if there are any; else the
    /// round in progress is turned to.
    pub fn replied(&mut self, reply: ValidatorReply) -> (action: SyncAction)
        requires
            old(self).stage is Querying,
        ensures
            Self::after_replied(*old(self), reply, *final(self), action),
    {
        match reply.into_usable() {
            None => {
                self.stage = SyncStage::Stopped;
                SyncAction::Done
            },
            Some(info) => {
                self.manager = info.manager;
                if !info.requested_sent_certificates.is_empty() {
                    self.stage = SyncStage::Processing;
                    SyncAction::Process(info.requested_sent_certificates)
                } else {
                    self.turn_to_round()
                }
            },
        }
    }

    /// Takes the result of applying the validator's certificates. The
    /// notifications are kept. If nothing was applied the attempt ends; else
    /// the round in progress is turned to.
    pub fn processed(&mut self, result: WithNotifications<Option<ChainInfo>>) -> (action:
        SyncAction)
        requires
            old(self).stage is Processing,
        ensures
            Self::after_processed(*old(self), result, *final(self), action),
    {
        match result.extend(&mut self.notifications) {
            Some(_) => self.turn_to_round(),
            None => {
                self.stage = SyncStage::Stopped;
                SyncAction::Done
            },
        }
    }

    /// Takes the local node's word on the proposal. A refusal is tolerated:
    /// either way the locked certificate is turned to.
    pub fn proposed(&mut self, result: Result<ChainInfo, LocalNodeError>) -> (action: SyncAction)
        requires
            old(self).stage is Proposing,
        ensures
            Self::same_progress(*old(self), *final(self)),
            Self::turned_to_locked(*final(self), action),
    {
        self.turn_to_locked()
    }

    /// Takes the local node's word on the locked certificate. A refusal is
    /// tolerated: either way the attempt is over. The notifications of a
    /// certificate that was applied are kept; those of a refusal are
    /// abandoned with it.
    pub fn locked(
        &mut self,
        result: Result<WithNotifications<ChainInfo>, WithNotifications<LocalNodeError>>,
    ) -> (action: SyncAction)
        requires
            old(self).stage is Locking,
        ensures
            Self::after_locked(*old(self), result, *final(self), action),
    {
        let _ = try_extend(result, &mut self.notifications);
        self.stage = SyncStage::Stopped;
        SyncAction::Done
    }

    /// The result of the attempt: the notifications collected. An attempt
    /// does not fail, wherever it ended.
    pub fn finish(self) -> (result: WithNotifications<()>)
        ensures
            result.notifications == self.notifications,
    {
        WithNotifications::new((), self.notifications)
    }
}

} // verus!
