use vstd::prelude::*;
use crate::error::RelayError;
use crate::identity::{ActionHash, opt_key};
use crate::ledger::{Action, Details, Record};

verus! {

/// Where an agent's membrane proof is to be read, from a provenance read
/// of the agent's key: nowhere where the agent is unknown; else the action
/// before the first one that created the key, which is the agent's
/// validation package.
pub open spec fn spec_proof_source(details: Option<Details>) -> Result<Option<Seq<u8>>, RelayError> {
    match details {
        None => Ok(None),
        Some(Details::Entry(actions)) => if actions@.len() > 0 && actions@[0].prev_action is Some {
            Ok(opt_key(actions@[0].prev_action))
        } else {
            Err(RelayError::NotFound)
        },
        Some(Details::Record(_)) => Err(RelayError::InvalidPayload),
    }
}

/// The action hash to read an agent's membrane proof from. `details` is the
/// provenance read of the agent's key.
pub fn membrane_proof_source(details: &Option<Details>) -> (r: Result<Option<ActionHash>, RelayError>)
    ensures
        match r {
            Ok(h) => spec_proof_source(*details) == Ok::<Option<Seq<u8>>, RelayError>(opt_key(h)),
            Err(e) => spec_proof_source(*details) == Err::<Option<Seq<u8>>, RelayError>(e),
        },
{
    match details {
        None => Ok(None),
        Some(Details::Entry(actions)) => {
            if actions.len() == 0 {
                return Err(RelayError::NotFound);
            }
            match &actions[0].prev_action {
                Some(prev) => Ok(Some(prev.clone())),
                None => Err(RelayError::NotFound),
            }
        },
        Some(Details::Record(_)) => Err(RelayError::InvalidPayload),
    }
}

/// The membrane proof an agent joined with, as serialized, from the record
/// at the hash [`membrane_proof_source`] gave: `NotFound` where there is no
/// record, `InvalidPayload` where it is not a validation package.
pub open spec fn spec_membrane_proof(record: Option<Record>) -> Result<Option<Vec<u8>>, RelayError> {
    match record {
        None => Err(RelayError::NotFound),
        Some(r) => match r.signed_action.action {
            Action::AgentValidationPkg { membrane_proof } => Ok(membrane_proof),
            _ => Err(RelayError::InvalidPayload),
        },
    }
}

/// Reads the membrane proof out of an agent's validation package record.
pub fn get_membrane_proof(record: Option<Record>) -> (r: Result<Option<Vec<u8>>, RelayError>)
    ensures
        r == spec_membrane_proof(record),
{
    match record {
        None => Err(RelayError::NotFound),
        Some(r) => match r.signed_action.action {
            Action::AgentValidationPkg { membrane_proof } => Ok(membrane_proof),
            _ => Err(RelayError::InvalidPayload),
        },
    }
}

} // verus!
