//! Client-side synchronization decisions for a replicated-chain local node.
//!
//! The library holds the rules by which a local node follows its validators:
//! which certificates to ask for, when to fetch a missing dependency and retry,
//! when to give up on a validator, and how notifications travel with results.
//! Every waiting step (a call to the worker, the storage or a validator) is
//! left to the caller, which performs the action it is handed and feeds the
//! outcome back as a plain value.
//!
//! - [`identifiers`], [`data_types`], [`errors`]: the values that the rules read.
//! - [`notifications`]: results that carry notifications.
//! - [`processing`]: applying a batch of certificates, with one fetch-and-retry.
//! - [`trial`]: the random order in which validators are tried.
//! - [`download`]: downloading a height range from one or several validators.
//! - [`synchronize`]: catching up with what one validator reports.
//! - [`resolve`]: resolving code objects and blobs from cache, storage and validators.
//! - [`lookup`]: finding the certificate that holds a message.
//! - [`invariants`]: what holds of the rules whatever the collaborators answer.

pub mod identifiers;
pub mod data_types;
pub mod errors;
pub mod notifications;
pub mod processing;
pub mod trial;
pub mod download;
pub mod synchronize;
pub mod resolve;
pub mod lookup;
pub mod version_info;
pub mod local_node;
pub mod invariants;
