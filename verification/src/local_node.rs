//! The local node: one worker, which every handle of a client shares.

use vstd::prelude::*;
use crate::data_types::ChainInfoQuery;
use crate::identifiers::ChainId;

verus! {

/// A local node with a single worker, typically used by clients.
pub struct LocalNode<S> {
    pub state: S,
}

impl<S> LocalNode<S> {
    /// The node around the given worker.
    pub fn new(state: S) -> (node: Self)
        ensures
            node.state == state,
    {
        LocalNode { state }
    }
}

/// The query by which a client reads the snapshot of a chain from its own
/// node: it asks for no certificates, no round and no payload.
pub fn local_chain_query(chain_id: ChainId) -> (query: ChainInfoQuery)
    ensures
        query == (ChainInfoQuery {
            chain_id,
            request_sent_certificates_in_range: None,
            request_manager_values: false,
            request_blob: None,
            request_hashed_certificate_value: None,
        }),
{
    ChainInfoQuery::new(chain_id)
}

} // verus!
