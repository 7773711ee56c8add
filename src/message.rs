use vstd::prelude::*;
use crate::conference::ValidateCallbackResult;
use crate::error::RelayError;
use crate::identity::AnyLinkableHash;
use crate::ledger::{EntryTypes, Record, SignedActionHashed};

verus! {

/// A chat message.
pub struct Message {
    pub text: String,
}

/// A committed message as one agent pushes it to another.
pub struct MessageRecord {
    pub signed_action: SignedActionHashed,
    pub message: Option<Message>,
}

/// Any message may be created.
pub fn validate_create_message(_message: Message) -> (r: ValidateCallbackResult)
    ensures
        r is Valid,
{
    ValidateCallbackResult::Valid
}

/// Any message may be updated.
pub fn validate_update_message(_message: Message, _original_message: Message) -> (r:
    ValidateCallbackResult)
    ensures
        r is Valid,
{
    ValidateCallbackResult::Valid
}

/// Any message may be deleted.
pub fn validate_delete_message(_original_message: Message) -> (r: ValidateCallbackResult)
    ensures
        r is Valid,
{
    ValidateCallbackResult::Valid
}

/// What one end of a message-update link must be: the address of an
/// action, whose record is found and carries a message.
pub open spec fn spec_message_end(address: AnyLinkableHash, record: Option<Record>) -> Result<
    (),
    RelayError,
> {
    if !(address is Action) {
        Err(RelayError::InvalidPayload)
    } else {
        match record {
            None => Err(RelayError::NotFound),
            Some(r) => match r.entry {
                None => Err(RelayError::MissingField),
                Some(EntryTypes::Message(_)) => Ok(()),
                Some(_) => Err(RelayError::SerializationError),
            },
        }
    }
}

fn check_message_end(address: &AnyLinkableHash, record: Option<Record>) -> (r: Result<(), RelayError>)
    ensures
        r == spec_message_end(*address, record),
{
    match address {
        AnyLinkableHash::Action(_) => {},
        _ => {
            return Err(RelayError::InvalidPayload);
        },
    }
    match record {
        None => Err(RelayError::NotFound),
        Some(r) => match r.entry {
            None => Err(RelayError::MissingField),
            Some(EntryTypes::Message(_)) => Ok(()),
            Some(_) => Err(RelayError::SerializationError),
        },
    }
}

/// A message-update link must join two messages. `base_record` and
/// `target_record` are the valid records the ledger holds at the base's and
/// the target's action hashes, if any. The base is checked first.
pub fn validate_create_link_message_updates(
    base_address: AnyLinkableHash,
    target_address: AnyLinkableHash,
    base_record: Option<Record>,
    target_record: Option<Record>,
) -> (r: Result<ValidateCallbackResult, RelayError>)
    ensures
        match spec_message_end(base_address, base_record) {
            Err(e) => r == Err::<ValidateCallbackResult, RelayError>(e),
            Ok(_) => match spec_message_end(target_address, target_record) {
                Err(e) => r == Err::<ValidateCallbackResult, RelayError>(e),
                Ok(_) => r matches Ok(ValidateCallbackResult::Valid),
            },
        },
{
    check_message_end(&base_address, base_record)?;
    check_message_end(&target_address, target_record)?;
    Ok(ValidateCallbackResult::Valid)
}

/// Message-update links are permanent: deleting one is never valid.
pub fn validate_delete_link_message_updates() -> (r: ValidateCallbackResult)
    ensures
        r is Invalid,
{
    ValidateCallbackResult::Invalid(String::from_str("MessageUpdates links cannot be deleted"))
}

} // verus!
