use vstd::prelude::*;
use crate::conference::ConferenceRecord;
use crate::identity::{AgentPubKey, contains_key, key_views};
use crate::presence::PresenceRegistry;

verus! {

/// The candidates that are currently reachable, in the candidates' order.
pub open spec fn reachable(candidates: Seq<Seq<u8>>, active: Seq<Seq<u8>>) -> Seq<Seq<u8>> {
    candidates.filter(|c: Seq<u8>| active.contains(c))
}

/// A one-way push of an envelope to a set of agents: at most once, with no
/// acknowledgment and no retry. A failure to deliver is not reported.
pub struct Push {
    pub record: ConferenceRecord,
    pub targets: Vec<AgentPubKey>,
}

/// The candidates that are among the active peers.
pub fn relay_targets(candidates: &Vec<AgentPubKey>, active: &Vec<AgentPubKey>) -> (r: Vec<
    AgentPubKey,
>)
    ensures
        key_views(r@) == reachable(key_views(candidates@), key_views(active@)),
{
    let ghost cands = key_views(candidates@);
    let ghost act = key_views(active@);
    let mut r: Vec<AgentPubKey> = Vec::new();
    let mut i: usize = 0;
    while i < candidates.len()
        invariant
            0 <= i <= candidates@.len(),
            cands == key_views(candidates@),
            act == key_views(active@),
            key_views(r@) == reachable(cands.subrange(0, i as int), act),
        decreases candidates@.len() - i,
    {
        let ghost pre = cands.subrange(0, i as int);
        let ghost pre1 = cands.subrange(0, i + 1);
        assert(pre1.drop_last() =~= pre);
        assert(pre1.last() == candidates@[i as int]@);
        let ghost before = r@;
        if contains_key(active, &candidates[i]) {
            r.push(candidates[i].clone());
            assert(reachable(pre1, act) == reachable(pre, act).push(candidates@[i as int]@)) by {
                reveal(Seq::filter);
            }
            assert(key_views(r@) =~= key_views(before).push(candidates@[i as int]@));
        } else {
            assert(reachable(pre1, act) == reachable(pre, act)) by {
                reveal(Seq::filter);
            }
        }
        i = i + 1;
    }
    assert(cands.subrange(0, candidates@.len() as int) =~= cands);
    r
}

/// Pushes `record` to the candidates that are currently reachable, and to no
/// one else. Where none is reachable nothing is pushed, and that is no error.
pub fn relay(record: ConferenceRecord, candidates: &Vec<AgentPubKey>, presence: &PresenceRegistry) -> (r:
    Option<Push>)
    ensures
        match r {
            None => reachable(key_views(candidates@), presence.peers()).len() == 0,
            Some(p) => {
                &&& p.record == record
                &&& key_views(p.targets@) == reachable(key_views(candidates@), presence.peers())
                &&& p.targets@.len() > 0
            },
        },
{
    let active = presence.active_peers();
    let targets = relay_targets(candidates, &active);
    if targets.len() == 0 {
        None
    } else {
        Some(Push { record, targets })
    }
}

/// Relaying to the invitees delivers to exactly those invitees that are
/// active, and to no one else.
pub proof fn lemma_relay_reaches_exactly_active_candidates(
    candidates: Seq<Seq<u8>>,
    active: Seq<Seq<u8>>,
)
    ensures
        forall|k: Seq<u8>|
            #[trigger] reachable(candidates, active).contains(k) <==> (candidates.contains(k)
                && active.contains(k)),
        reachable(candidates, active).to_set() == candidates.to_set().intersect(active.to_set()),
    decreases candidates.len(),
{
    if candidates.len() > 0 {
        let rest = candidates.drop_last();
        lemma_relay_reaches_exactly_active_candidates(rest, active);
        assert(reachable(candidates, active) == (if active.contains(candidates.last()) {
            reachable(rest, active).push(candidates.last())
        } else {
            reachable(rest, active)
        })) by {
            reveal(Seq::filter);
        }
        assert(candidates =~= rest.push(candidates.last()));
        assert forall|k: Seq<u8>|
            #[trigger] reachable(candidates, active).contains(k) <==> (candidates.contains(k)
                && active.contains(k)) by {
            if candidates.contains(k) && k != candidates.last() {
                let j = choose|j: int| 0 <= j < candidates.len() && candidates[j] == k;
                assert(rest[j] == k);
            }
            if reachable(candidates, active).contains(k) && k != candidates.last() {
                let j = choose|j: int|
                    0 <= j < reachable(candidates, active).len() && reachable(
                        candidates,
                        active,
                    )[j] == k;
                if active.contains(candidates.last()) {
                    assert(reachable(rest, active)[j] == k);
                }
                assert(reachable(rest, active).contains(k));
                let m = choose|m: int| 0 <= m < rest.len() && rest[m] == k;
                assert(candidates[m] == k);
            }
            if reachable(rest, active).contains(k) {
                let j = choose|j: int|
                    0 <= j < reachable(rest, active).len() && reachable(rest, active)[j] == k;
                if active.contains(candidates.last()) {
                    assert(reachable(candidates, active)[j] == k);
                }
            }
            if candidates.contains(k) && active.contains(k) && k == candidates.last() {
                assert(reachable(candidates, active).last() == k);
            }
        }
    } else {
        assert(reachable(candidates, active) =~= Seq::<Seq<u8>>::empty()) by {
            reveal(Seq::filter);
        }
    }
    assert(reachable(candidates, active).to_set() =~= candidates.to_set().intersect(
        active.to_set(),
    ));
}

} // verus!
