use relay::classifier::{lookups_for, post_commit, signal_action, Committed, Fetched};
use relay::conference::{ValidateCallbackResult, CallSignalType, ConferenceRecord, ConferenceRoom, ConferenceSignalType, SignalPayload};
use relay::error::RelayError;
use relay::identity::{AnyLinkableHash, RawHash};
use relay::ledger::{
    get_entry_for_action, Action, AppEntryDef, Details, EntryType, EntryTypes, LinkTypes, Record,
    SignedActionHashed,
};
use relay::message::{
    validate_create_link_message_updates, validate_create_message, validate_delete_link_message_updates,
    validate_delete_message, validate_update_message, Message, MessageRecord,
};
use relay::signal::{conference_signal, recv_remote_signal, Signal, SignalData};

const ZOME: u8 = 0;

fn hash(prefix: u8, n: u8) -> RawHash {
    let mut raw = vec![0x84u8, prefix, 0x24];
    raw.extend(std::iter::repeat(n).take(36));
    RawHash::from_raw(raw)
}

fn agent(n: u8) -> RawHash {
    hash(0x20, n)
}

fn ah(n: u8) -> RawHash {
    hash(0x29, n)
}

fn signed(n: u8, action: Action) -> SignedActionHashed {
    SignedActionHashed { hash: ah(n), prev_action: Some(ah(n - 1)), action, signature: vec![n; 64] }
}

fn message(text: &str) -> Message {
    Message { text: text.to_string() }
}

fn create(n: u8, entry_index: u8) -> SignedActionHashed {
    signed(
        n,
        Action::Create {
            entry_type: EntryType::App(AppEntryDef { zome_index: ZOME, entry_index }),
            entry_hash: hash(0x21, n),
        },
    )
}

fn message_details(n: u8, text: &str) -> Option<Details> {
    Some(Details::Record(Record { signed_action: create(n, 0), entry: Some(EntryTypes::Message(message(text))) }))
}

fn no_fetch() -> Fetched {
    Fetched { record: None, own_details: None, original_details: None }
}

fn create_link(n: u8, zome_index: u8, link_type: u8) -> SignedActionHashed {
    signed(
        n,
        Action::CreateLink {
            base_address: AnyLinkableHash::Agent(agent(1)),
            target_address: AnyLinkableHash::Agent(agent(2)),
            zome_index,
            link_type,
        },
    )
}

fn delete_link(n: u8, of: u8) -> SignedActionHashed {
    signed(n, Action::DeleteLink { base_address: AnyLinkableHash::Agent(agent(1)), link_add_address: ah(of) })
}

#[test]
fn link_creation_gives_its_type() {
    match signal_action(create_link(5, ZOME, 2), no_fetch(), ZOME) {
        Ok(Some(Signal::LinkCreated { link_type, action })) => {
            assert_eq!(link_type, LinkTypes::ActiveCalls);
            assert_eq!(action.hash.raw, ah(5).raw);
        }
        _ => panic!("expected LinkCreated"),
    }
}

#[test]
fn unknown_link_types_give_no_event() {
    assert!(matches!(signal_action(create_link(5, 7, 0), no_fetch(), ZOME), Ok(None)));
    assert!(matches!(signal_action(create_link(5, ZOME, 9), no_fetch(), ZOME), Ok(None)));
}

#[test]
fn link_type_decoding() {
    assert_eq!(LinkTypes::from_type(ZOME, 0, ZOME), Ok(Some(LinkTypes::MessageUpdates)));
    assert_eq!(LinkTypes::from_type(ZOME, 1, ZOME), Ok(Some(LinkTypes::ConferenceParticipants)));
    assert_eq!(LinkTypes::from_type(3, 1, ZOME), Ok(None));
    assert_eq!(LinkTypes::from_type(ZOME, 3, ZOME), Err(RelayError::SerializationError));
}

#[test]
fn link_deletion_with_missing_origin_must_exist() {
    let d = delete_link(6, 5);
    let lookups = lookups_for(&d);
    assert_eq!(lookups.record.unwrap().raw, ah(5).raw);
    assert!(lookups.own_entry.is_none() && lookups.original_entry.is_none());
    assert!(matches!(signal_action(d, no_fetch(), ZOME), Err(RelayError::MustExist)));
}

#[test]
fn link_deletion_of_non_link_must_exist() {
    let fetched = Fetched {
        record: Some(Record { signed_action: create(5, 0), entry: None }),
        own_details: None,
        original_details: None,
    };
    assert!(matches!(signal_action(delete_link(6, 5), fetched, ZOME), Err(RelayError::MustExist)));
}

#[test]
fn link_deletion_gives_type_and_origin() {
    let fetched = Fetched {
        record: Some(Record { signed_action: create_link(5, ZOME, 0), entry: None }),
        own_details: None,
        original_details: None,
    };
    match signal_action(delete_link(6, 5), fetched, ZOME) {
        Ok(Some(Signal::LinkDeleted { action, create_link_action, link_type })) => {
            assert_eq!(action.hash.raw, ah(6).raw);
            assert_eq!(create_link_action.hash.raw, ah(5).raw);
            assert_eq!(link_type, LinkTypes::MessageUpdates);
        }
        _ => panic!("expected LinkDeleted"),
    }
}

#[test]
fn entry_creation_resolves_payload() {
    let c = create(8, 0);
    let lookups = lookups_for(&c);
    assert_eq!(lookups.own_entry.unwrap().raw, ah(8).raw);
    let fetched = Fetched { record: None, own_details: message_details(8, "hi"), original_details: None };
    match signal_action(c, fetched, ZOME) {
        Ok(Some(Signal::EntryCreated { app_entry: EntryTypes::Message(m), .. })) => assert_eq!(m.text, "hi"),
        _ => panic!("expected EntryCreated"),
    }
}

#[test]
fn unresolvable_entry_creation_gives_no_event() {
    assert!(matches!(signal_action(create(8, 0), no_fetch(), ZOME), Ok(None)));
    let wrong_shape = Some(Details::Record(Record {
        signed_action: create(8, 1),
        entry: Some(EntryTypes::Message(message("hi"))),
    }));
    assert_eq!(get_entry_for_action(wrong_shape, ZOME).err(), Some(RelayError::SerializationError));
    let other_zome = Some(Details::Record(Record {
        signed_action: signed(8, Action::Create {
            entry_type: EntryType::App(AppEntryDef { zome_index: 4, entry_index: 0 }),
            entry_hash: hash(0x21, 8),
        }),
        entry: Some(EntryTypes::Message(message("hi"))),
    }));
    assert!(matches!(get_entry_for_action(other_zome, ZOME), Ok(None)));
}

fn update(n: u8, of: u8) -> SignedActionHashed {
    signed(
        n,
        Action::Update {
            original_action_address: ah(of),
            entry_type: EntryType::App(AppEntryDef { zome_index: ZOME, entry_index: 0 }),
            entry_hash: hash(0x21, n),
        },
    )
}

#[test]
fn update_with_missing_original_is_dropped() {
    let u = update(9, 8);
    let lookups = lookups_for(&u);
    assert_eq!(lookups.original_entry.unwrap().raw, ah(8).raw);
    let fetched = Fetched { record: None, own_details: message_details(9, "new"), original_details: None };
    assert!(matches!(signal_action(u, fetched, ZOME), Ok(None)));
}

#[test]
fn update_gives_both_payloads() {
    let fetched = Fetched {
        record: None,
        own_details: message_details(9, "new"),
        original_details: message_details(8, "old"),
    };
    match signal_action(update(9, 8), fetched, ZOME) {
        Ok(Some(Signal::EntryUpdated {
            app_entry: EntryTypes::Message(n),
            original_app_entry: EntryTypes::Message(o),
            ..
        })) => {
            assert_eq!(n.text, "new");
            assert_eq!(o.text, "old");
        }
        _ => panic!("expected EntryUpdated"),
    }
}

#[test]
fn deletion_gives_original_or_nothing() {
    let del = || signed(10, Action::Delete { deletes_address: ah(8) });
    assert!(matches!(signal_action(del(), no_fetch(), ZOME), Ok(None)));
    let fetched = Fetched { record: None, own_details: None, original_details: message_details(8, "gone") };
    match signal_action(del(), fetched, ZOME) {
        Ok(Some(Signal::EntryDeleted { original_app_entry: EntryTypes::Message(m), .. })) => {
            assert_eq!(m.text, "gone")
        }
        _ => panic!("expected EntryDeleted"),
    }
}

#[test]
fn other_actions_are_ignored() {
    assert!(matches!(signal_action(signed(3, Action::Other), no_fetch(), ZOME), Ok(None)));
}

#[test]
fn post_commit_emits_in_order_and_skips_failures() {
    let committed = vec![
        Committed { action: create_link(5, ZOME, 1), fetched: no_fetch() },
        Committed { action: delete_link(6, 4), fetched: no_fetch() },
        Committed { action: signed(7, Action::Other), fetched: no_fetch() },
        Committed { action: create_link(8, ZOME, 2), fetched: no_fetch() },
    ];
    let events = post_commit(committed, ZOME);
    assert_eq!(events.len(), 2);
    assert!(matches!(events[0], Signal::LinkCreated { link_type: LinkTypes::ConferenceParticipants, .. }));
    assert!(matches!(events[1], Signal::LinkCreated { link_type: LinkTypes::ActiveCalls, .. }));
}

fn payload() -> SignalPayload {
    SignalPayload {
        room_id: "room_x".to_string(),
        from: agent(1),
        to: agent(2),
        payload_type: CallSignalType::IceCandidate,
        data: "{\"candidate\":\"a\"}".to_string(),
    }
}

fn record(
    signal_type: ConferenceSignalType,
    room: bool,
    room_id: bool,
    agent_set: bool,
    payload_set: bool,
) -> ConferenceRecord {
    ConferenceRecord {
        room: if room {
            Some(ConferenceRoom {
                initiator: agent(1),
                participants: vec![agent(2)],
                created_at: 0,
                title: "t".to_string(),
                room_id: "room_x".to_string(),
            })
        } else {
            None
        },
        room_id: if room_id { Some("room_x".to_string()) } else { None },
        agent: if agent_set { Some(agent(1)) } else { None },
        signal_type,
        signal_payload: if payload_set { Some(payload()) } else { None },
    }
}

#[test]
fn envelopes_give_their_tagged_event() {
    assert!(matches!(conference_signal(record(ConferenceSignalType::Invite, true, false, true, false)),
        Ok(Signal::ConferenceInvite { .. })));
    match conference_signal(record(ConferenceSignalType::Join, false, true, true, false)) {
        Ok(Signal::ConferenceJoined { room_id, agent: a }) => {
            assert_eq!(room_id, "room_x");
            assert_eq!(a.raw, agent(1).raw);
        }
        _ => panic!("expected ConferenceJoined"),
    }
    assert!(matches!(conference_signal(record(ConferenceSignalType::Leave, false, true, true, false)),
        Ok(Signal::ConferenceLeft { .. })));
    match conference_signal(record(ConferenceSignalType::WebRTC, false, false, false, true)) {
        Ok(Signal::WebRTCSignal(p)) => assert_eq!(p.data, "{\"candidate\":\"a\"}"),
        _ => panic!("expected WebRTCSignal"),
    }
}

#[test]
fn envelopes_with_wrong_fields_are_missing_field() {
    let bad = [
        record(ConferenceSignalType::Invite, false, false, true, false),
        record(ConferenceSignalType::Invite, true, false, false, false),
        record(ConferenceSignalType::Join, false, false, true, false),
        record(ConferenceSignalType::Leave, false, true, false, false),
        record(ConferenceSignalType::WebRTC, false, false, false, false),
        record(ConferenceSignalType::WebRTC, false, true, false, true),
        record(ConferenceSignalType::Join, true, true, true, false),
    ];
    for r in bad {
        assert!(matches!(recv_remote_signal(SignalData::ConferenceRecord(r), agent(3)), Err(RelayError::MissingField)));
    }
}

#[test]
fn pushed_messages_carry_their_sender() {
    let with = MessageRecord { signed_action: create(4, 0), message: Some(message("yo")) };
    match recv_remote_signal(SignalData::MessageRecord(with), agent(7)) {
        Ok(Signal::Message { message: m, from, action }) => {
            assert_eq!(m.text, "yo");
            assert_eq!(from.raw, agent(7).raw);
            assert_eq!(action.hash.raw, ah(4).raw);
        }
        _ => panic!("expected Message"),
    }
    let without = MessageRecord { signed_action: create(4, 0), message: None };
    assert!(matches!(recv_remote_signal(SignalData::MessageRecord(without), agent(7)), Err(RelayError::MissingField)));
}

#[test]
fn message_validation() {
    assert!(matches!(validate_create_message(message("a")), ValidateCallbackResult::Valid));
    assert!(matches!(validate_update_message(message("b"), message("a")), ValidateCallbackResult::Valid));
    assert!(matches!(validate_delete_message(message("a")), ValidateCallbackResult::Valid));
    assert!(matches!(validate_delete_link_message_updates(), ValidateCallbackResult::Invalid(_)));
    let msg_record = |n: u8| Some(Record { signed_action: create(n, 0), entry: Some(EntryTypes::Message(message("m"))) });
    let base = || AnyLinkableHash::Action(ah(1));
    let target = || AnyLinkableHash::Action(ah(2));
    assert!(matches!(validate_create_link_message_updates(base(), target(), msg_record(1), msg_record(2)), Ok(ValidateCallbackResult::Valid)));
    assert_eq!(
        validate_create_link_message_updates(AnyLinkableHash::Agent(agent(1)), target(), msg_record(1), msg_record(2)).err(),
        Some(RelayError::InvalidPayload)
    );
    assert_eq!(validate_create_link_message_updates(base(), target(), None, msg_record(2)).err(), Some(RelayError::NotFound));
    assert_eq!(
        validate_create_link_message_updates(base(), target(), msg_record(1), Some(Record { signed_action: create(2, 0), entry: None })).err(),
        Some(RelayError::MissingField)
    );
    let room_record = Some(Record {
        signed_action: create(2, 2),
        entry: Some(EntryTypes::SignalPayload(payload())),
    });
    assert_eq!(
        validate_create_link_message_updates(base(), target(), msg_record(1), room_record).err(),
        Some(RelayError::SerializationError)
    );
}
