use vstd::prelude::*;
use crate::identity::{AgentPubKey, key_views};

verus! {

/// What a WebRTC signal carries.
#[derive(Clone, Copy, Debug, PartialEq, Eq, Structural)]
pub enum CallSignalType {
    Offer,
    Answer,
    IceCandidate,
}

/// The tag of a relay envelope.
#[derive(Clone, Copy, Debug, PartialEq, Eq, Structural)]
pub enum ConferenceSignalType {
    Invite,
    Join,
    Leave,
    WebRTC,
}

/// A conference room: created once, never changed or deleted.
pub struct ConferenceRoom {
    pub initiator: AgentPubKey,
    /// The invitees, in the order they were invited.
    pub participants: Vec<AgentPubKey>,
    /// Creation time, in microseconds since the Unix epoch.
    pub created_at: i64,
    pub title: String,
    pub room_id: String,
}

/// The mathematical value of a [`ConferenceRoom`].
pub struct RoomView {
    pub initiator: Seq<u8>,
    pub participants: Seq<Seq<u8>>,
    pub created_at: i64,
    pub title: Seq<char>,
    pub room_id: Seq<char>,
}

impl View for ConferenceRoom {
    type V = RoomView;

    open spec fn view(&self) -> RoomView {
        RoomView {
            initiator: self.initiator@,
            participants: key_views(self.participants@),
            created_at: self.created_at,
            title: self.title@,
            room_id: self.room_id@,
        }
    }
}

/// Copies a list of keys.
pub fn clone_keys(keys: &Vec<AgentPubKey>) -> (r: Vec<AgentPubKey>)
    ensures
        key_views(r@) == key_views(keys@),
{
    let mut r: Vec<AgentPubKey> = Vec::new();
    let mut i: usize = 0;
    while i < keys.len()
        invariant
            0 <= i <= keys@.len(),
            r@.len() == i,
            forall|j: int| 0 <= j < i ==> r@[j]@ == keys@[j]@,
        decreases keys@.len() - i,
    {
        r.push(keys[i].clone());
        i = i + 1;
    }
    assert(key_views(r@) =~= key_views(keys@));
    r
}

impl Clone for ConferenceRoom {
    fn clone(&self) -> (r: Self)
        ensures
            r@ == self@,
    {
        ConferenceRoom {
            initiator: self.initiator.clone(),
            participants: clone_keys(&self.participants),
            created_at: self.created_at,
            title: self.title.clone(),
            room_id: self.room_id.clone(),
        }
    }
}

/// Call-setup data from one agent to another, exchanged only by relay.
pub struct SignalPayload {
    pub room_id: String,
    pub from: AgentPubKey,
    pub to: AgentPubKey,
    pub payload_type: CallSignalType,
    /// An SDP description or an ICE candidate, as JSON text.
    pub data: String,
}

/// The mathematical value of a [`SignalPayload`].
pub struct PayloadView {
    pub room_id: Seq<char>,
    pub from: Seq<u8>,
    pub to: Seq<u8>,
    pub payload_type: CallSignalType,
    pub data: Seq<char>,
}

impl View for SignalPayload {
    type V = PayloadView;

    open spec fn view(&self) -> PayloadView {
        PayloadView {
            room_id: self.room_id@,
            from: self.from@,
            to: self.to@,
            payload_type: self.payload_type,
            data: self.data@,
        }
    }
}

impl Clone for SignalPayload {
    fn clone(&self) -> (r: Self)
        ensures
            r@ == self@,
    {
        SignalPayload {
            room_id: self.room_id.clone(),
            from: self.from.clone(),
            to: self.to.clone(),
            payload_type: self.payload_type,
            data: self.data.clone(),
        }
    }
}

/// The envelope relayed between agents. Which of the optional fields are
/// set is fixed by the tag: see [`ConferenceRecord::is_well_formed`].
pub struct ConferenceRecord {
    pub room: Option<ConferenceRoom>,
    pub room_id: Option<String>,
    pub agent: Option<AgentPubKey>,
    pub signal_type: ConferenceSignalType,
    pub signal_payload: Option<SignalPayload>,
}

/// The mathematical value of a [`ConferenceRecord`].
pub struct RecordView {
    pub room: Option<RoomView>,
    pub room_id: Option<Seq<char>>,
    pub agent: Option<Seq<u8>>,
    pub signal_type: ConferenceSignalType,
    pub signal_payload: Option<PayloadView>,
}

impl View for ConferenceRecord {
    type V = RecordView;

    open spec fn view(&self) -> RecordView {
        RecordView {
            room: match self.room {
                Some(r) => Some(r@),
                None => None,
            },
            room_id: match self.room_id {
                Some(s) => Some(s@),
                None => None,
            },
            agent: match self.agent {
                Some(a) => Some(a@),
                None => None,
            },
            signal_type: self.signal_type,
            signal_payload: match self.signal_payload {
                Some(p) => Some(p@),
                None => None,
            },
        }
    }
}

impl RecordView {
    /// The fields that the tag implies are set, and no others: an invite
    /// carries the room and the inviting agent, a join or a leave the room
    /// id and the agent, a WebRTC signal its payload alone.
    pub open spec fn is_well_formed(self) -> bool {
        match self.signal_type {
            ConferenceSignalType::Invite => self.room is Some && self.room_id is None
                && self.agent is Some && self.signal_payload is None,
            ConferenceSignalType::Join | ConferenceSignalType::Leave => self.room is None
                && self.room_id is Some && self.agent is Some && self.signal_payload is None,
            ConferenceSignalType::WebRTC => self.room is None && self.room_id is None
                && self.agent is None && self.signal_payload is Some,
        }
    }
}

impl ConferenceRecord {
    pub open spec fn is_well_formed(&self) -> bool {
        self@.is_well_formed()
    }
}

/// The verdict of an entry or link validation.
pub enum ValidateCallbackResult {
    Valid,
    Invalid(String),
}

/// A room must have at least one participant.
pub fn validate_create_conference(conference: ConferenceRoom) -> (r: ValidateCallbackResult)
    ensures
        r is Valid <==> conference.participants@.len() > 0,
{
    if conference.participants.len() == 0 {
        return ValidateCallbackResult::Invalid(
            String::from_str("Conference room must have at least one participant"),
        );
    }
    ValidateCallbackResult::Valid
}

/// A signal payload must carry data.
pub fn validate_create_signal(signal: SignalPayload) -> (r: ValidateCallbackResult)
    ensures
        r is Valid <==> signal.data@.len() > 0,
{
    if signal.data.as_str().is_empty() {
        return ValidateCallbackResult::Invalid(String::from_str("Signal payload cannot be empty"));
    }
    ValidateCallbackResult::Valid
}

} // verus!
