use vstd::prelude::*;
use crate::conference::{
    CallSignalType, ConferenceRecord, ConferenceRoom, ConferenceSignalType, PayloadView,
    RecordView, RoomView, SignalPayload, clone_keys,
};
use crate::error::RelayError;
use crate::identity::{ActionHash, AgentPubKey, DnaHash, key_views};
use crate::presence::{
    ActiveLinkView, PresenceRegistry, lemma_mark_inactive_twice, links_to, marked_inactive,
};
use crate::signal::{Signal, spec_conference_signal};
use crate::relay::{Push, reachable, relay};

verus! {

/// The text form of a hash, as the ledger prints it.
pub uninterp spec fn hash_text_of(raw: Seq<u8>) -> Seq<char>;

/// Relies on `holo_hash::encode::holo_hash_encode`, which the ledger's
/// hashes print with: the letter `u` followed by the URL-safe base64 of the
/// raw bytes, without padding.
#[verifier::external_body]
fn hash_text(raw: &Vec<u8>) -> (r: String)
    ensures
        r@ == hash_text_of(raw@),
        r@.len() > 0,
        r@[0] == 'u',
{
    holo_hash::encode::holo_hash_encode(raw.as_slice())
}

/// The id of the room created in the network `dna`: `room_` followed by the
/// network hash's text form.
pub open spec fn room_id_of(dna: Seq<u8>) -> Seq<char> {
    seq!['r', 'o', 'o', 'm', '_'] + hash_text_of(dna)
}

/// The id of the room created in the network named by `dna_hash`.
pub fn room_id_for(dna_hash: &DnaHash) -> (r: String)
    ensures
        r@ == room_id_of(dna_hash@),
{
    let text = hash_text(&dna_hash.raw);
    let prefix = String::from_str("room_");
    proof {
        reveal_strlit("room_");
    }
    let r = prefix.concat(text.as_str());
    assert(r@ =~= room_id_of(dna_hash@));
    r
}

/// Who is calling, and in which network: what the host reports.
pub struct AgentContext {
    pub agent: AgentPubKey,
    pub dna_hash: DnaHash,
}

pub struct CreateConferenceInput {
    pub participants: Vec<AgentPubKey>,
    pub title: String,
}

pub struct JoinConferenceInput {
    pub room_id: String,
    pub participants: Vec<AgentPubKey>,
}

pub struct SignalInput {
    pub room_id: String,
    pub target: AgentPubKey,
    pub payload_type: CallSignalType,
    pub data: String,
}

/// What creating a room writes and pushes.
pub struct CreatedConference {
    /// The id that later joins, signals and leaves name the room by.
    pub room_id: String,
    /// The room entry to append to the ledger.
    pub room: ConferenceRoom,
    /// The invitees, one participant link to each, in invite order.
    pub invited: Vec<AgentPubKey>,
    /// The invitation, for the invitees that are reachable now.
    pub invite: Option<Push>,
}

/// What leaving a room deletes and pushes.
pub struct Departure {
    /// The caller's own active links, to delete from the ledger.
    pub removed_links: Vec<ActionHash>,
    /// The notice that the caller left, for the peers still reachable.
    pub notice: Option<Push>,
}

/// The room that `agent` creates in network `dna`.
pub open spec fn spec_new_room(
    agent: Seq<u8>,
    dna: Seq<u8>,
    participants: Seq<Seq<u8>>,
    title: Seq<char>,
    created_at: i64,
) -> RoomView {
    RoomView { initiator: agent, participants, created_at, title, room_id: room_id_of(dna) }
}

/// The envelope an invitation to `room` by `agent` travels in.
pub open spec fn invite_envelope(room: RoomView, agent: Seq<u8>) -> RecordView {
    RecordView {
        room: Some(room),
        room_id: None,
        agent: Some(agent),
        signal_type: ConferenceSignalType::Invite,
        signal_payload: None,
    }
}

/// The envelope announcing that `agent` joined or left the room `room_id`.
pub open spec fn presence_envelope(
    tag: ConferenceSignalType,
    room_id: Seq<char>,
    agent: Seq<u8>,
) -> RecordView {
    RecordView {
        room: None,
        room_id: Some(room_id),
        agent: Some(agent),
        signal_type: tag,
        signal_payload: None,
    }
}

/// The envelope a WebRTC signal travels in.
pub open spec fn webrtc_envelope(payload: PayloadView) -> RecordView {
    RecordView {
        room: None,
        room_id: None,
        agent: None,
        signal_type: ConferenceSignalType::WebRTC,
        signal_payload: Some(payload),
    }
}

/// What relaying an envelope with value `record` to `candidates` pushes,
/// given the peers reachable now.
pub open spec fn relayed(
    push: Option<Push>,
    record: RecordView,
    candidates: Seq<Seq<u8>>,
    peers: Seq<Seq<u8>>,
) -> bool {
    match push {
        None => reachable(candidates, peers).len() == 0,
        Some(p) => p.record@ == record && key_views(p.targets@) == reachable(candidates, peers),
    }
}

/// Creates a room with the given invitees and title, created at
/// `created_at` (microseconds since the Unix epoch) by the caller, and
/// invites the invitees that are reachable. An empty invitee list is
/// rejected before anything is written or pushed.
pub fn create_conference(
    ctx: &AgentContext,
    input: CreateConferenceInput,
    created_at: i64,
    presence: &PresenceRegistry,
) -> (r: Result<CreatedConference, RelayError>)
    ensures
        input.participants@.len() == 0 <==> r == Err::<CreatedConference, RelayError>(
            RelayError::InvalidPayload,
        ),
        input.participants@.len() > 0 <==> r is Ok,
        r matches Ok(c) ==> {
            let room = spec_new_room(
                ctx.agent@,
                ctx.dna_hash@,
                key_views(input.participants@),
                input.title@,
                created_at,
            );
            &&& c.room@ == room
            &&& c.room_id@ == room_id_of(ctx.dna_hash@)
            &&& key_views(c.invited@) == key_views(input.participants@)
            &&& relayed(
                c.invite,
                invite_envelope(room, ctx.agent@),
                key_views(input.participants@),
                presence.peers(),
            )
        },
{
    if input.participants.len() == 0 {
        return Err(RelayError::InvalidPayload);
    }
    let room_id = room_id_for(&ctx.dna_hash);
    let invited = clone_keys(&input.participants);
    let room = ConferenceRoom {
        initiator: ctx.agent.clone(),
        participants: input.participants,
        created_at,
        title: input.title,
        room_id: room_id.clone(),
    };
    let record = ConferenceRecord {
        room: Some(room.clone()),
        room_id: None,
        agent: Some(ctx.agent.clone()),
        signal_type: ConferenceSignalType::Invite,
        signal_payload: None,
    };
    let invite = relay(record, &invited, presence);
    Ok(CreatedConference { room_id, room, invited, invite })
}

/// Announces that the caller joined the room, to the room's invitees that
/// are reachable. Room existence is not re-checked: the caller names it.
pub fn join_conference(ctx: &AgentContext, input: JoinConferenceInput, presence: &PresenceRegistry) -> (r:
    Option<Push>)
    ensures
        relayed(
            r,
            presence_envelope(ConferenceSignalType::Join, input.room_id@, ctx.agent@),
            key_views(input.participants@),
            presence.peers(),
        ),
{
    let record = ConferenceRecord {
        room: None,
        room_id: Some(input.room_id),
        agent: Some(ctx.agent.clone()),
        signal_type: ConferenceSignalType::Join,
        signal_payload: None,
    };
    relay(record, &input.participants, presence)
}

/// Sends call-setup data to one peer, if it is reachable. Empty data is
/// rejected before anything is pushed.
pub fn send_signal(ctx: &AgentContext, input: SignalInput, presence: &PresenceRegistry) -> (r:
    Result<Option<Push>, RelayError>)
    ensures
        input.data@.len() == 0 <==> r == Err::<Option<Push>, RelayError>(
            RelayError::InvalidPayload,
        ),
        input.data@.len() > 0 <==> r is Ok,
        r matches Ok(push) ==> relayed(
            push,
            webrtc_envelope(
                PayloadView {
                    room_id: input.room_id@,
                    from: ctx.agent@,
                    to: input.target@,
                    payload_type: input.payload_type,
                    data: input.data@,
                },
            ),
            seq![input.target@],
            presence.peers(),
        ),
{
    if input.data.as_str().is_empty() {
        return Err(RelayError::InvalidPayload);
    }
    let mut targets: Vec<AgentPubKey> = Vec::new();
    targets.push(input.target.clone());
    assert(key_views(targets@) =~= seq![input.target@]);
    let payload = SignalPayload {
        room_id: input.room_id,
        from: ctx.agent.clone(),
        to: input.target,
        payload_type: input.payload_type,
        data: input.data,
    };
    let record = ConferenceRecord {
        room: None,
        room_id: None,
        agent: None,
        signal_type: ConferenceSignalType::WebRTC,
        signal_payload: Some(payload),
    };
    Ok(relay(record, &targets, presence))
}

/// Leaves a room: removes the caller's own active links, and no other
/// peer's, and tells the peers that are still reachable. Leaving again is
/// no error; it removes nothing more.
pub fn leave_conference(ctx: &AgentContext, room_id: String, presence: &mut PresenceRegistry) -> (r:
    Departure)
    ensures
        final(presence).owner_view() == old(presence).owner_view(),
        final(presence).links_view() == marked_inactive(old(presence).links_view(), ctx.agent@),
        key_views(r.removed_links@) == links_to(old(presence).links_view(), ctx.agent@),
        relayed(
            r.notice,
            presence_envelope(ConferenceSignalType::Leave, room_id@, ctx.agent@),
            final(presence).peers(),
            final(presence).peers(),
        ),
{
    let removed_links = presence.mark_inactive(&ctx.agent);
    let peers = presence.active_peers();
    let record = ConferenceRecord {
        room: None,
        room_id: Some(room_id),
        agent: Some(ctx.agent.clone()),
        signal_type: ConferenceSignalType::Leave,
        signal_payload: None,
    };
    let notice = relay(record, &peers, presence);
    Departure { removed_links, notice }
}

/// Leaving a room twice in succession: the second leave, which has no
/// error to report, deletes no link and leaves the registry as the first
/// leave left it.
pub proof fn lemma_leave_twice(links: Seq<ActiveLinkView>, agent: Seq<u8>)
    ensures
        marked_inactive(marked_inactive(links, agent), agent) == marked_inactive(links, agent),
        links_to(marked_inactive(links, agent), agent).len() == 0,
{
    lemma_mark_inactive_twice(links, agent);
}

/// A created room reads back with the invitees and the title it was created
/// with, and the invitation that carries it gives the invitee that very
/// room, from its creator.
pub proof fn lemma_created_room_reads_back(
    agent: Seq<u8>,
    dna: Seq<u8>,
    participants: Seq<Seq<u8>>,
    title: Seq<char>,
    created_at: i64,
    envelope: ConferenceRecord,
)
    requires
        envelope@ == invite_envelope(
            spec_new_room(agent, dna, participants, title, created_at),
            agent,
        ),
    ensures
        spec_new_room(agent, dna, participants, title, created_at).participants == participants,
        spec_new_room(agent, dna, participants, title, created_at).title == title,
        match spec_conference_signal(envelope) {
            Ok(Signal::ConferenceInvite { room, agent: from }) => room@ == spec_new_room(
                agent,
                dna,
                participants,
                title,
                created_at,
            ) && from@ == agent,
            _ => false,
        },
{
}

/// Every envelope the protocol sends carries exactly the fields its tag
/// implies, so a peer receiving one never fails with `MissingField`.
pub proof fn lemma_protocol_envelopes_are_well_formed(
    room: RoomView,
    room_id: Seq<char>,
    agent: Seq<u8>,
    payload: PayloadView,
)
    ensures
        invite_envelope(room, agent).is_well_formed(),
        presence_envelope(ConferenceSignalType::Join, room_id, agent).is_well_formed(),
        presence_envelope(ConferenceSignalType::Leave, room_id, agent).is_well_formed(),
        webrtc_envelope(payload).is_well_formed(),
{
}

} // verus!
