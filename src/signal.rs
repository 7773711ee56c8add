use vstd::prelude::*;
use crate::conference::{ConferenceRecord, ConferenceRoom, ConferenceSignalType, SignalPayload};
use crate::error::RelayError;
use crate::identity::AgentPubKey;
use crate::ledger::{EntryTypes, LinkTypes, SignedActionHashed};
use crate::message::{Message, MessageRecord};

verus! {

/// An event for the listening client. Events are derived and handed on at
/// once; they are never stored.
pub enum Signal {
    Message { action: SignedActionHashed, message: Message, from: AgentPubKey },
    LinkCreated { action: SignedActionHashed, link_type: LinkTypes },
    LinkDeleted {
        action: SignedActionHashed,
        create_link_action: SignedActionHashed,
        link_type: LinkTypes,
    },
    EntryCreated { action: SignedActionHashed, app_entry: EntryTypes },
    EntryUpdated {
        action: SignedActionHashed,
        app_entry: EntryTypes,
        original_app_entry: EntryTypes,
    },
    EntryDeleted { action: SignedActionHashed, original_app_entry: EntryTypes },
    ConferenceInvite { room: ConferenceRoom, agent: AgentPubKey },
    ConferenceJoined { room_id: String, agent: AgentPubKey },
    ConferenceLeft { room_id: String, agent: AgentPubKey },
    WebRTCSignal(SignalPayload),
}

/// What a peer may push to this agent.
pub enum SignalData {
    MessageRecord(MessageRecord),
    ConferenceRecord(ConferenceRecord),
}

/// The event a relayed conference envelope gives: the one its tag names,
/// built from the fields the tag implies. An envelope whose fields do not
/// match its tag gives `MissingField`.
pub open spec fn spec_conference_signal(record: ConferenceRecord) -> Result<Signal, RelayError> {
    if !record.is_well_formed() {
        Err(RelayError::MissingField)
    } else {
        match record.signal_type {
            ConferenceSignalType::Invite => Ok(
                Signal::ConferenceInvite { room: record.room->0, agent: record.agent->0 },
            ),
            ConferenceSignalType::Join => Ok(
                Signal::ConferenceJoined { room_id: record.room_id->0, agent: record.agent->0 },
            ),
            ConferenceSignalType::Leave => Ok(
                Signal::ConferenceLeft { room_id: record.room_id->0, agent: record.agent->0 },
            ),
            ConferenceSignalType::WebRTC => Ok(Signal::WebRTCSignal(record.signal_payload->0)),
        }
    }
}

/// The event a push from a peer gives. `provenance` is the key of the agent
/// that made the push.
pub open spec fn spec_received(signal_data: SignalData, provenance: AgentPubKey) -> Result<
    Signal,
    RelayError,
> {
    match signal_data {
        SignalData::MessageRecord(r) => match r.message {
            Some(message) => Ok(
                Signal::Message { action: r.signed_action, message, from: provenance },
            ),
            None => Err(RelayError::MissingField),
        },
        SignalData::ConferenceRecord(c) => spec_conference_signal(c),
    }
}

/// Turns a relayed conference envelope into its event.
pub fn conference_signal(record: ConferenceRecord) -> (r: Result<Signal, RelayError>)
    ensures
        r == spec_conference_signal(record),
{
    let ConferenceRecord { room, room_id, agent, signal_type, signal_payload } = record;
    match signal_type {
        ConferenceSignalType::Invite => match (room, room_id, agent, signal_payload) {
            (Some(room), None, Some(agent), None) => Ok(Signal::ConferenceInvite { room, agent }),
            _ => Err(RelayError::MissingField),
        },
        ConferenceSignalType::Join => match (room, room_id, agent, signal_payload) {
            (None, Some(room_id), Some(agent), None) => Ok(
                Signal::ConferenceJoined { room_id, agent },
            ),
            _ => Err(RelayError::MissingField),
        },
        ConferenceSignalType::Leave => match (room, room_id, agent, signal_payload) {
            (None, Some(room_id), Some(agent), None) => Ok(Signal::ConferenceLeft { room_id, agent }),
            _ => Err(RelayError::MissingField),
        },
        ConferenceSignalType::WebRTC => match (room, room_id, agent, signal_payload) {
            (None, None, None, Some(payload)) => Ok(Signal::WebRTCSignal(payload)),
            _ => Err(RelayError::MissingField),
        },
    }
}

/// The entry point peers push to: the event for the listening client, or
/// `MissingField` where a field that the push's kind implies is absent.
pub fn recv_remote_signal(signal_data: SignalData, provenance: AgentPubKey) -> (r: Result<
    Signal,
    RelayError,
>)
    ensures
        r == spec_received(signal_data, provenance),
{
    match signal_data {
        SignalData::MessageRecord(r) => {
            let MessageRecord { signed_action, message } = r;
            match message {
                Some(message) => Ok(
                    Signal::Message { action: signed_action, message, from: provenance },
                ),
                None => Err(RelayError::MissingField),
            }
        },
        SignalData::ConferenceRecord(c) => conference_signal(c),
    }
}

} // verus!
