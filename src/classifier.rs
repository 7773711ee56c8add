use vstd::prelude::*;
use crate::error::RelayError;
use crate::identity::{ActionHash, opt_key};
use crate::ledger::{
    Action, Details, Record, SignedActionHashed, get_entry_for_action, spec_entry_for_action,
    spec_link_type, LinkTypes,
};
use crate::signal::Signal;

verus! {

/// The ledger reads a freshly committed action needs before it can be
/// classified.
pub struct Lookups {
    /// A plain read of this action hash: the creating action of a deleted link.
    pub record: Option<ActionHash>,
    /// A provenance read of the committed action itself.
    pub own_entry: Option<ActionHash>,
    /// A provenance read of the action an update or a delete refers back to.
    pub original_entry: Option<ActionHash>,
}

/// The results of the reads that [`Lookups`] names, each `None` where it
/// was not asked for or found nothing.
pub struct Fetched {
    pub record: Option<Record>,
    pub own_details: Option<Details>,
    pub original_details: Option<Details>,
}

/// Which reads classifying `action` takes.
pub fn lookups_for(action: &SignedActionHashed) -> (r: Lookups)
    ensures
        match action.action {
            Action::DeleteLink { link_add_address, .. } => opt_key(r.record) == Some(
                link_add_address@,
            ) && r.own_entry is None && r.original_entry is None,
            Action::Create { .. } => r.record is None && opt_key(r.own_entry) == Some(action.hash@)
                && r.original_entry is None,
            Action::Update { original_action_address, .. } => r.record is None && opt_key(
                r.own_entry,
            ) == Some(action.hash@) && opt_key(r.original_entry) == Some(
                original_action_address@,
            ),
            Action::Delete { deletes_address } => r.record is None && r.own_entry is None
                && opt_key(r.original_entry) == Some(deletes_address@),
            _ => r.record is None && r.own_entry is None && r.original_entry is None,
        },
{
    match &action.action {
        Action::DeleteLink { link_add_address, .. } => Lookups {
            record: Some(link_add_address.clone()),
            own_entry: None,
            original_entry: None,
        },
        Action::Create { .. } => Lookups {
            record: None,
            own_entry: Some(action.hash.clone()),
            original_entry: None,
        },
        Action::Update { original_action_address, .. } => Lookups {
            record: None,
            own_entry: Some(action.hash.clone()),
            original_entry: Some(original_action_address.clone()),
        },
        Action::Delete { deletes_address } => Lookups {
            record: None,
            own_entry: None,
            original_entry: Some(deletes_address.clone()),
        },
        _ => Lookups { record: None, own_entry: None, original_entry: None },
    }
}

/// The event a deleted link gives, from the record of the action that
/// created it: none where the link type is not this application's, and
/// `MustExist` where that record is missing or is not a link creation.
pub open spec fn spec_link_deleted(
    action: SignedActionHashed,
    record: Option<Record>,
    integrity_zome: u8,
) -> Result<Option<Signal>, RelayError> {
    match record {
        None => Err(RelayError::MustExist),
        Some(rec) => match rec.signed_action.action {
            Action::CreateLink { zome_index, link_type, .. } => match spec_link_type(
                zome_index,
                link_type,
                integrity_zome,
            ) {
                Ok(Some(t)) => Ok(
                    Some(
                        Signal::LinkDeleted {
                            action,
                            create_link_action: rec.signed_action,
                            link_type: t,
                        },
                    ),
                ),
                _ => Ok(None),
            },
            _ => Err(RelayError::MustExist),
        },
    }
}

/// The classification of a committed action, one row per kind. Every kind
/// but a link deletion drops silently what it cannot resolve; a link
/// deletion whose creating action cannot be read fails with `MustExist`.
pub open spec fn spec_classified(
    action: SignedActionHashed,
    fetched: Fetched,
    integrity_zome: u8,
) -> Result<Option<Signal>, RelayError> {
    match action.action {
        Action::CreateLink { zome_index, link_type, .. } => match spec_link_type(
            zome_index,
            link_type,
            integrity_zome,
        ) {
            Ok(Some(t)) => Ok(Some(Signal::LinkCreated { action, link_type: t })),
            _ => Ok(None),
        },
        Action::DeleteLink { .. } => spec_link_deleted(action, fetched.record, integrity_zome),
        Action::Create { .. } => match spec_entry_for_action(fetched.own_details, integrity_zome) {
            Ok(Some(e)) => Ok(Some(Signal::EntryCreated { action, app_entry: e })),
            _ => Ok(None),
        },
        Action::Update { .. } => match (
            spec_entry_for_action(fetched.own_details, integrity_zome),
            spec_entry_for_action(fetched.original_details, integrity_zome),
        ) {
            (Ok(Some(e)), Ok(Some(o))) => Ok(
                Some(Signal::EntryUpdated { action, app_entry: e, original_app_entry: o }),
            ),
            _ => Ok(None),
        },
        Action::Delete { .. } => match spec_entry_for_action(
            fetched.original_details,
            integrity_zome,
        ) {
            Ok(Some(o)) => Ok(Some(Signal::EntryDeleted { action, original_app_entry: o })),
            _ => Ok(None),
        },
        _ => Ok(None),
    }
}

/// Classifies a freshly committed action into the event for the client, if
/// any. `fetched` holds the results of the reads [`lookups_for`] names;
/// `integrity_zome` is the index of this application's integrity zome.
pub fn signal_action(action: SignedActionHashed, fetched: Fetched, integrity_zome: u8) -> (r: Result<
    Option<Signal>,
    RelayError,
>)
    ensures
        r == spec_classified(action, fetched, integrity_zome),
{
    let Fetched { record, own_details, original_details } = fetched;
    match &action.action {
        Action::CreateLink { zome_index, link_type, .. } => {
            match LinkTypes::from_type(*zome_index, *link_type, integrity_zome) {
                Ok(Some(t)) => Ok(Some(Signal::LinkCreated { action, link_type: t })),
                _ => Ok(None),
            }
        },
        Action::DeleteLink { .. } => {
            let rec = match record {
                Some(rec) => rec,
                None => {
                    return Err(RelayError::MustExist);
                },
            };
            let t = match &rec.signed_action.action {
                Action::CreateLink { zome_index, link_type, .. } => LinkTypes::from_type(
                    *zome_index,
                    *link_type,
                    integrity_zome,
                ),
                _ => {
                    return Err(RelayError::MustExist);
                },
            };
            match t {
                Ok(Some(t)) => Ok(
                    Some(
                        Signal::LinkDeleted {
                            action,
                            create_link_action: rec.signed_action,
                            link_type: t,
                        },
                    ),
                ),
                _ => Ok(None),
            }
        },
        Action::Create { .. } => match get_entry_for_action(own_details, integrity_zome) {
            Ok(Some(e)) => Ok(Some(Signal::EntryCreated { action, app_entry: e })),
            _ => Ok(None),
        },
        Action::Update { .. } => {
            let own = get_entry_for_action(own_details, integrity_zome);
            let original = get_entry_for_action(original_details, integrity_zome);
            match (own, original) {
                (Ok(Some(e)), Ok(Some(o))) => Ok(
                    Some(Signal::EntryUpdated { action, app_entry: e, original_app_entry: o }),
                ),
                _ => Ok(None),
            }
        },
        Action::Delete { .. } => match get_entry_for_action(original_details, integrity_zome) {
            Ok(Some(o)) => Ok(Some(Signal::EntryDeleted { action, original_app_entry: o })),
            _ => Ok(None),
        },
        _ => Ok(None),
    }
}

/// A committed action with the results of the reads it needs.
pub struct Committed {
    pub action: SignedActionHashed,
    pub fetched: Fetched,
}

/// The events a batch of committed actions gives, in commit order: one for
/// each action that classifies to an event. An action that fails to
/// classify gives none, and does not affect the others.
pub open spec fn spec_emitted(committed: Seq<Committed>, integrity_zome: u8) -> Seq<Signal>
    decreases committed.len(),
{
    if committed.len() == 0 {
        Seq::empty()
    } else {
        let rest = spec_emitted(committed.drop_last(), integrity_zome);
        match spec_classified(committed.last().action, committed.last().fetched, integrity_zome) {
            Ok(Some(s)) => rest.push(s),
            _ => rest,
        }
    }
}

/// Classifies each freshly committed action, in order, and returns the
/// events to hand to the client.
pub fn post_commit(committed: Vec<Committed>, integrity_zome: u8) -> (r: Vec<Signal>)
    ensures
        r@ == spec_emitted(committed@, integrity_zome),
{
    let ghost all = committed@;
    let mut rest = committed;
    let mut r: Vec<Signal> = Vec::new();
    let ghost mut i: int = 0;
    while rest.len() > 0
        invariant
            0 <= i <= all.len(),
            rest@ == all.subrange(i, all.len() as int),
            r@ == spec_emitted(all.subrange(0, i), integrity_zome),
        decreases rest@.len(),
    {
        let c = rest.remove(0);
        proof {
            assert(c == all[i]);
            assert(all.subrange(0, i + 1).drop_last() =~= all.subrange(0, i));
            assert(all.subrange(0, i + 1).last() == all[i]);
        }
        let Committed { action, fetched } = c;
        match signal_action(action, fetched, integrity_zome) {
            Ok(Some(s)) => r.push(s),
            _ => {},
        }
        proof {
            i = i + 1;
        }
        assert(rest@ =~= all.subrange(i, all.len() as int));
    }
    assert(all.subrange(0, all.len() as int) =~= all);
    r
}

/// The classifier's asymmetry: an update whose original entry cannot be
/// resolved gives no event, while a link deletion whose creating action
/// cannot be read fails with `MustExist`.
pub proof fn lemma_unresolved_update_dropped_unresolved_unlink_fails(
    update: SignedActionHashed,
    update_fetched: Fetched,
    unlink: SignedActionHashed,
    unlink_fetched: Fetched,
    integrity_zome: u8,
)
    requires
        update.action is Update,
        !(spec_entry_for_action(update_fetched.original_details, integrity_zome) matches Ok(
            Some(_),
        )),
        unlink.action is DeleteLink,
        unlink_fetched.record is None,
    ensures
        spec_classified(update, update_fetched, integrity_zome) == Ok::<
            Option<Signal>,
            RelayError,
        >(None),
        spec_classified(unlink, unlink_fetched, integrity_zome) == Err::<
            Option<Signal>,
            RelayError,
        >(RelayError::MustExist),
{
}

} // verus!
