use vstd::prelude::*;
use crate::record::DnsRecord;

verus! {

/// The provider's structured answer to an update request.
pub struct ProviderResponse {
    pub success: bool,
    pub errors: Vec<String>,
    pub messages: Vec<String>,
    /// The record as the provider now holds it; present on success.
    pub result: Option<DnsRecord>,
}

/// A failure to complete an exchange: the request could not be sent, or
/// the answer could not be read as the expected structure.
pub struct TransportError {
    pub message: String,
}

/// What an update exchange that completed amounts to.
pub enum UpdateOutcome {
    /// The provider accepted the new record.
    Updated,
    /// The provider refused it, with its error messages.
    Rejected(Vec<String>),
}

/// What `response` amounts to: accepted exactly when its success flag is set,
/// otherwise refused with its error messages.
pub open spec fn outcome_of(response: ProviderResponse) -> UpdateOutcome {
    if response.success {
        UpdateOutcome::Updated
    } else {
        UpdateOutcome::Rejected(response.errors)
    }
}

impl ProviderResponse {
    /// Reads the provider's verdict from its answer.
    pub fn outcome(self) -> (r: UpdateOutcome)
        ensures
            r == outcome_of(self),
    {
        if self.success {
            UpdateOutcome::Updated
        } else {
            UpdateOutcome::Rejected(self.errors)
        }
    }
}

/// The result of an update exchange. Only a transport failure is an error;
/// a refusal by the provider is a completed exchange and comes back as
/// `Ok(UpdateOutcome::Rejected(..))`.
pub fn settle_update(reply: Result<ProviderResponse, TransportError>) -> (r: Result<UpdateOutcome, TransportError>)
    ensures
        r is Ok <==> reply is Ok,
        reply is Ok ==> r == Ok::<UpdateOutcome, TransportError>(outcome_of(reply->Ok_0)),
        reply is Err ==> r == Err::<UpdateOutcome, TransportError>(reply->Err_0),
{
    match reply {
        Ok(response) => Ok(response.outcome()),
        Err(e) => Err(e),
    }
}

} // verus!
