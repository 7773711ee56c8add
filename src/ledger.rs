use vstd::prelude::*;
use crate::conference::{ConferenceRoom, SignalPayload};
use crate::error::RelayError;
use crate::identity::{ActionHash, AnyLinkableHash, EntryHash};
use crate::message::Message;

verus! {

/// The declared type of an application entry: which integrity zome defines
/// it, and which of that zome's entry types it is.
#[derive(Clone, Copy, Debug, PartialEq, Eq, Structural)]
pub struct AppEntryDef {
    pub zome_index: u8,
    pub entry_index: u8,
}

/// The declared type of an entry.
#[derive(Clone, Copy, Debug, PartialEq, Eq, Structural)]
pub enum EntryType {
    App(AppEntryDef),
    AgentPubKey,
    CapClaim,
    CapGrant,
}

/// The content of a committed action, as far as this application reads it.
pub enum Action {
    CreateLink {
        base_address: AnyLinkableHash,
        target_address: AnyLinkableHash,
        zome_index: u8,
        link_type: u8,
    },
    DeleteLink { base_address: AnyLinkableHash, link_add_address: ActionHash },
    Create { entry_type: EntryType, entry_hash: EntryHash },
    Update { original_action_address: ActionHash, entry_type: EntryType, entry_hash: EntryHash },
    Delete { deletes_address: ActionHash },
    AgentValidationPkg { membrane_proof: Option<Vec<u8>> },
    /// Genesis, chain-opening and chain-closing actions.
    Other,
}

impl Action {
    /// The declared type of the entry the action creates, if it creates one.
    pub open spec fn spec_entry_type(&self) -> Option<EntryType> {
        match self {
            Action::Create { entry_type, .. } => Some(*entry_type),
            Action::Update { entry_type, .. } => Some(*entry_type),
            _ => None,
        }
    }

    /// The declared type of the entry the action creates, if it creates one.
    pub fn entry_type(&self) -> (r: Option<EntryType>)
        ensures
            r == self.spec_entry_type(),
    {
        match self {
            Action::Create { entry_type, .. } => Some(*entry_type),
            Action::Update { entry_type, .. } => Some(*entry_type),
            _ => None,
        }
    }
}

/// A committed action with its hash, the hash of the action before it on
/// its author's chain (none for the first), and its author's signature.
pub struct SignedActionHashed {
    pub hash: ActionHash,
    pub prev_action: Option<ActionHash>,
    pub action: Action,
    pub signature: Vec<u8>,
}

/// The entry types this application defines, in their declared order.
pub enum EntryTypes {
    Message(Message),
    ConferenceRoom(ConferenceRoom),
    SignalPayload(SignalPayload),
}

impl EntryTypes {
    /// The index of the variant among the application's entry types.
    pub open spec fn spec_entry_index(&self) -> u8 {
        match self {
            EntryTypes::Message(_) => 0,
            EntryTypes::ConferenceRoom(_) => 1,
            EntryTypes::SignalPayload(_) => 2,
        }
    }

    /// The index of the variant among the application's entry types.
    pub fn entry_index(&self) -> (r: u8)
        ensures
            r == self.spec_entry_index(),
    {
        match self {
            EntryTypes::Message(_) => 0,
            EntryTypes::ConferenceRoom(_) => 1,
            EntryTypes::SignalPayload(_) => 2,
        }
    }
}

/// The link types this application defines, in their declared order.
#[derive(Clone, Copy, Debug, PartialEq, Eq, Structural)]
pub enum LinkTypes {
    /// From a message to the message that updates it.
    MessageUpdates,
    /// From a room to an invitee.
    ConferenceParticipants,
    /// From an agent to a peer it can currently reach.
    ActiveCalls,
}

/// The number of link types.
pub const LINK_TYPE_COUNT: u8 = 3;

/// How a (zome, type) pair read from a link decodes: to a link type of this
/// application when the zome is its integrity zome, to no type when it is
/// another zome, and to an error when the type index is out of range.
pub open spec fn spec_link_type(zome_index: u8, link_type: u8, integrity_zome: u8) -> Result<
    Option<LinkTypes>,
    RelayError,
> {
    if zome_index != integrity_zome {
        Ok(None)
    } else if link_type == 0 {
        Ok(Some(LinkTypes::MessageUpdates))
    } else if link_type == 1 {
        Ok(Some(LinkTypes::ConferenceParticipants))
    } else if link_type == 2 {
        Ok(Some(LinkTypes::ActiveCalls))
    } else {
        Err(RelayError::SerializationError)
    }
}

impl LinkTypes {
    /// Decodes the link type of a link created in `zome_index` with type
    /// index `link_type`; `integrity_zome` is the index of this
    /// application's integrity zome.
    pub fn from_type(zome_index: u8, link_type: u8, integrity_zome: u8) -> (r: Result<
        Option<LinkTypes>,
        RelayError,
    >)
        ensures
            r == spec_link_type(zome_index, link_type, integrity_zome),
    {
        if zome_index != integrity_zome {
            Ok(None)
        } else if link_type == 0 {
            Ok(Some(LinkTypes::MessageUpdates))
        } else if link_type == 1 {
            Ok(Some(LinkTypes::ConferenceParticipants))
        } else if link_type == 2 {
            Ok(Some(LinkTypes::ActiveCalls))
        } else {
            Err(RelayError::SerializationError)
        }
    }
}

/// A ledger record: a signed action and, where the action carries one and
/// it is visible, its entry as read under the action's declared type.
pub struct Record {
    pub signed_action: SignedActionHashed,
    pub entry: Option<EntryTypes>,
}

/// What the ledger reports for a hash looked up with its provenance.
pub enum Details {
    /// The hash named an action: its record.
    Record(Record),
    /// The hash named an entry: the actions that created it, in order.
    Entry(Vec<SignedActionHashed>),
}

/// How an entry decodes under its declared type: to the entry when the
/// declared zome is this application's integrity zome and the declared
/// index is the entry's own, to nothing when another zome declared it, and
/// to an error when the entry does not have the declared shape.
pub open spec fn spec_decode_entry(def: AppEntryDef, entry: EntryTypes, integrity_zome: u8) -> Result<
    Option<EntryTypes>,
    RelayError,
> {
    if def.zome_index != integrity_zome {
        Ok(None)
    } else if def.entry_index == entry.spec_entry_index() {
        Ok(Some(entry))
    } else {
        Err(RelayError::SerializationError)
    }
}

/// The application entry that a provenance lookup resolves to: none where
/// the lookup found nothing or no record, where the record carries no
/// entry or where its type is not an application type; else the entry
/// decoded under its declared type.
pub open spec fn spec_entry_for_action(details: Option<Details>, integrity_zome: u8) -> Result<
    Option<EntryTypes>,
    RelayError,
> {
    match details {
        Some(Details::Record(record)) => match record.entry {
            Some(entry) => match record.signed_action.action.spec_entry_type() {
                Some(EntryType::App(def)) => spec_decode_entry(def, entry, integrity_zome),
                _ => Ok(None),
            },
            None => Ok(None),
        },
        _ => Ok(None),
    }
}

/// Resolves the result of a provenance lookup of an action hash to the
/// application entry it carries.
pub fn get_entry_for_action(details: Option<Details>, integrity_zome: u8) -> (r: Result<
    Option<EntryTypes>,
    RelayError,
>)
    ensures
        r == spec_entry_for_action(details, integrity_zome),
{
    let record = match details {
        Some(Details::Record(record)) => record,
        _ => {
            return Ok(None);
        },
    };
    let def = match record.signed_action.action.entry_type() {
        Some(EntryType::App(def)) => def,
        _ => {
            return Ok(None);
        },
    };
    let entry = match record.entry {
        Some(entry) => entry,
        None => {
            return Ok(None);
        },
    };
    if def.zome_index != integrity_zome {
        Ok(None)
    } else if def.entry_index == entry.entry_index() {
        Ok(Some(entry))
    } else {
        Err(RelayError::SerializationError)
    }
}

} // verus!
