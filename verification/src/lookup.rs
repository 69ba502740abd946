//! Finding the certificate that holds a given message.

use vstd::prelude::*;
use crate::data_types::{BlockHeightRange, Certificate, ChainInfoQuery};
use crate::errors::{LocalNodeError, ViewError};
use crate::identifiers::MessageId;

verus! {

/// The query that asks the chain of a message for the certificate at the
/// message's height.
pub fn certificate_query(message_id: &MessageId) -> (query: ChainInfoQuery)
    ensures
        query == (ChainInfoQuery {
            chain_id: message_id.chain_id,
            request_sent_certificates_in_range: Some(
                BlockHeightRange { start: message_id.height, limit: Some(1u64) },
            ),
            request_manager_values: false,
            request_blob: None,
            request_hashed_certificate_value: None,
        }),
{
    ChainInfoQuery::new(message_id.chain_id).with_sent_certificates_in_range(
        BlockHeightRange::single(message_id.height),
    )
}

/// Whether `index` is that of the first certificate that holds the message.
pub open spec fn is_first_holder(
    certificates: Seq<Certificate>,
    message_id: MessageId,
    index: int,
) -> bool {
    &&& 0 <= index < certificates.len()
    &&& certificates[index].has_message(&message_id)
    &&& forall|j: int| 0 <= j < index ==> !(#[trigger] certificates[j]).has_message(&message_id)
}

/// Whether none of the certificates holds the message.
pub open spec fn no_holder(certificates: Seq<Certificate>, message_id: MessageId) -> bool {
    forall|j: int| 0 <= j < certificates.len() ==> !(#[trigger] certificates[j]).has_message(
        &message_id,
    )
}

/// The words of the error for a message that no certificate holds.
pub open spec fn missing_certificate_text() -> Seq<char> {
    "could not find certificate with message"@
}

/// Picks the certificate that holds the message: the first that does. Where
/// none does, the entry is reported as not found.
pub fn find_certificate_for(certificates: &Vec<Certificate>, message_id: &MessageId) -> (result:
    Result<Certificate, LocalNodeError>)
    ensures
        match result {
            Ok(certificate) => exists|index: int|
                is_first_holder(certificates@, *message_id, index) && certificate
                    == certificates@[index],
            Err(LocalNodeError::ViewError(ViewError::NotFound(text))) => no_holder(
                certificates@,
                *message_id,
            ) && text@ == missing_certificate_text(),
            Err(_) => false,
        },
{
    let mut index: usize = 0;
    while index < certificates.len()
        invariant
            index <= certificates@.len(),
            forall|j: int|
                0 <= j < index ==> !(#[trigger] certificates@[j]).has_message(message_id),
        decreases certificates@.len() - index,
    {
        let certificate = certificates[index];
        if certificate.has_message(message_id) {
            assert(is_first_holder(certificates@, *message_id, index as int));
            return Ok(certificate);
        }
        index = index + 1;
    }
    Err(
        LocalNodeError::ViewError(
            ViewError::NotFound("could not find certificate with message".to_owned()),
        ),
    )
}

} // verus!
