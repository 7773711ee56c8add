use vstd::prelude::*;
use crate::identity::{ActionHash, AgentPubKey, AnyLinkableHash, key_views};

verus! {

/// A link as the ledger lists it: the hash of the action that created it,
/// and its target.
pub struct Link {
    pub create_link_hash: ActionHash,
    pub target: AnyLinkableHash,
}

/// One "currently active" link: the action that created it, and the agent
/// it declares reachable.
pub struct ActiveLink {
    pub link: ActionHash,
    pub target: AgentPubKey,
}

/// The value of an active link: (creating action, target agent).
pub type ActiveLinkView = (Seq<u8>, Seq<u8>);

/// The agents a link list declares reachable, in the list's order: the
/// targets that are agent keys.
pub open spec fn agent_links(links: Seq<Link>) -> Seq<ActiveLinkView>
    decreases links.len(),
{
    if links.len() == 0 {
        Seq::empty()
    } else {
        let rest = agent_links(links.drop_last());
        match links.last().target {
            AnyLinkableHash::Agent(a) => rest.push((links.last().create_link_hash@, a@)),
            _ => rest,
        }
    }
}

/// The targets of a sequence of active links.
pub open spec fn peers_of(links: Seq<ActiveLinkView>) -> Seq<Seq<u8>> {
    links.map_values(|l: ActiveLinkView| l.1)
}

/// The registry after `peer` was marked active by the link `link`.
pub open spec fn marked_active(links: Seq<ActiveLinkView>, peer: Seq<u8>, link: Seq<u8>) -> Seq<
    ActiveLinkView,
> {
    links.push((link, peer))
}

/// Whether a link points somewhere other than `peer`.
pub open spec fn away_from(peer: Seq<u8>) -> spec_fn(ActiveLinkView) -> bool {
    |l: ActiveLinkView| l.1 != peer
}

/// Whether a link points to `peer`.
pub open spec fn toward(peer: Seq<u8>) -> spec_fn(ActiveLinkView) -> bool {
    |l: ActiveLinkView| l.1 == peer
}

/// The registry after `peer` was marked inactive: every link to it is gone,
/// every other link stays, in order.
pub open spec fn marked_inactive(links: Seq<ActiveLinkView>, peer: Seq<u8>) -> Seq<ActiveLinkView> {
    links.filter(away_from(peer))
}

/// The links that marking `peer` inactive deletes, in order.
pub open spec fn links_to(links: Seq<ActiveLinkView>, peer: Seq<u8>) -> Seq<Seq<u8>> {
    links.filter(toward(peer)).map_values(|l: ActiveLinkView| l.0)
}

/// The presence registry of one agent: the "currently active" links
/// anchored at the agent's own key.
pub struct PresenceRegistry {
    owner: AgentPubKey,
    links: Vec<ActiveLink>,
}

impl PresenceRegistry {
    /// The agent whose registry this is.
    pub closed spec fn owner_view(&self) -> Seq<u8> {
        self.owner@
    }

    /// The agent whose registry this is.
    pub fn owner(&self) -> (r: &AgentPubKey)
        ensures
            r@ == self.owner_view(),
    {
        &self.owner
    }

    /// The links, as values.
    pub closed spec fn links_view(&self) -> Seq<ActiveLinkView> {
        self.links@.map_values(|l: ActiveLink| (l.link@, l.target@))
    }

    /// The agents currently reachable, one entry per link.
    pub open spec fn peers(&self) -> Seq<Seq<u8>> {
        peers_of(self.links_view())
    }

    /// A registry with no active link.
    pub fn new(owner: AgentPubKey) -> (r: Self)
        ensures
            r.owner_view() == owner@,
            r.links_view() == Seq::<ActiveLinkView>::empty(),
    {
        let r = PresenceRegistry { owner, links: Vec::new() };
        assert(r.links_view() =~= Seq::<ActiveLinkView>::empty());
        r
    }

    /// The registry as the ledger lists it: of the links anchored at
    /// `owner`, those that point to an agent.
    pub fn from_links(owner: AgentPubKey, links: Vec<Link>) -> (r: Self)
        ensures
            r.owner_view() == owner@,
            r.links_view() == agent_links(links@),
    {
        let mut kept: Vec<ActiveLink> = Vec::new();
        let mut i: usize = 0;
        while i < links.len()
            invariant
                0 <= i <= links@.len(),
                kept@.map_values(|l: ActiveLink| (l.link@, l.target@)) =~= agent_links(
                    links@.subrange(0, i as int),
                ),
            decreases links@.len() - i,
        {
            assert(links@.subrange(0, i + 1).drop_last() =~= links@.subrange(0, i as int));
            match &links[i].target {
                AnyLinkableHash::Agent(agent) => {
                    kept.push(ActiveLink { link: links[i].create_link_hash.clone(), target: agent.clone() });
                },
                _ => {},
            }
            i = i + 1;
            assert(kept@.map_values(|l: ActiveLink| (l.link@, l.target@)) =~= agent_links(
                links@.subrange(0, i as int),
            ));
        }
        assert(links@.subrange(0, links@.len() as int) =~= links@);
        PresenceRegistry { owner, links: kept }
    }

    /// The agents currently reachable: the targets of the active links.
    pub fn active_peers(&self) -> (r: Vec<AgentPubKey>)
        ensures
            key_views(r@) == self.peers(),
    {
        let mut r: Vec<AgentPubKey> = Vec::new();
        let mut i: usize = 0;
        while i < self.links.len()
            invariant
                0 <= i <= self.links@.len(),
                r@.len() == i,
                forall|j: int| 0 <= j < i ==> r@[j]@ == self.links@[j].target@,
            decreases self.links@.len() - i,
        {
            r.push(self.links[i].target.clone());
            i = i + 1;
        }
        assert(key_views(r@) =~= self.peers());
        r
    }

    /// Records that `peer` is reachable, through the link created by `link`.
    pub fn mark_active(&mut self, peer: AgentPubKey, link: ActionHash)
        ensures
            final(self).owner_view() == old(self).owner_view(),
            final(self).links_view() == marked_active(old(self).links_view(), peer@, link@),
    {
        let ghost pv = peer@;
        let ghost lv = link@;
        self.links.push(ActiveLink { link, target: peer });
        assert(self.links_view() =~= marked_active(old(self).links_view(), pv, lv));
    }

    /// Removes every link to `peer`, and no other, returning the hashes of
    /// the links to delete from the ledger. A peer with no link is no error:
    /// nothing is removed.
    pub fn mark_inactive(&mut self, peer: &AgentPubKey) -> (removed: Vec<ActionHash>)
        ensures
            final(self).owner_view() == old(self).owner_view(),
            final(self).links_view() == marked_inactive(old(self).links_view(), peer@),
            key_views(removed@) == links_to(old(self).links_view(), peer@),
    {
        let ghost old_view = self.links_view();
        let mut kept: Vec<ActiveLink> = Vec::new();
        let mut removed: Vec<ActionHash> = Vec::new();
        let n: usize = self.links.len();
        let mut i: usize = 0;
        while i < n
            invariant
                n == self.links@.len(),
                0 <= i <= n,
                self.links@ == old(self).links@,
                old_view == self.links_view(),
                kept@.map_values(|l: ActiveLink| (l.link@, l.target@)) == marked_inactive(
                    old_view.subrange(0, i as int),
                    peer@,
                ),
                key_views(removed@) == links_to(old_view.subrange(0, i as int), peer@),
            decreases n - i,
        {
            let ghost pre = old_view.subrange(0, i as int);
            let ghost pre1 = old_view.subrange(0, i + 1);
            let ghost last = (self.links@[i as int].link@, self.links@[i as int].target@);
            assert(pre1.drop_last() =~= pre);
            assert(pre1.last() == last);
            let ghost removed_before = removed@;
            let link = self.links[i].link.clone();
            let target = self.links[i].target.clone();
            if target.same(peer) {
                removed.push(link);
                assert(marked_inactive(pre1, peer@) == marked_inactive(pre, peer@)) by {
                    reveal(Seq::filter);
                }
                assert(pre1.filter(toward(peer@)) == pre.filter(toward(peer@)).push(last)) by {
                    reveal(Seq::filter);
                }
                assert(pre.filter(toward(peer@)).push(last).map_values(
                    |l: ActiveLinkView| l.0,
                ) =~= links_to(pre, peer@).push(last.0));
                assert(key_views(removed@) =~= key_views(removed_before).push(last.0));
                assert(key_views(removed@) =~= links_to(pre1, peer@));
            } else {
                kept.push(ActiveLink { link, target });
                assert(marked_inactive(pre1, peer@) == marked_inactive(pre, peer@).push(last)) by {
                    reveal(Seq::filter);
                }
                assert(pre1.filter(toward(peer@)) == pre.filter(toward(peer@))) by {
                    reveal(Seq::filter);
                }
                assert(kept@.map_values(|l: ActiveLink| (l.link@, l.target@)) =~= marked_inactive(
                    pre1,
                    peer@,
                ));
            }
            i = i + 1;
        }
        assert(old_view.subrange(0, n as int) =~= old_view);
        self.links = kept;
        assert(self.links_view() =~= marked_inactive(old_view, peer@));
        removed
    }
}

/// Once a peer is marked active it is among the active peers; once it is
/// marked inactive it is not.
pub proof fn lemma_marks_decide_presence(links: Seq<ActiveLinkView>, peer: Seq<u8>, link: Seq<u8>)
    ensures
        peers_of(marked_active(links, peer, link)).contains(peer),
        !peers_of(marked_inactive(links, peer)).contains(peer),
{
    let added = marked_active(links, peer, link);
    assert(peers_of(added)[links.len() as int] == peer);
    let kept = marked_inactive(links, peer);
    if peers_of(kept).contains(peer) {
        let i = choose|i: int| 0 <= i < peers_of(kept).len() && peers_of(kept)[i] == peer;
        links.lemma_filter_pred(away_from(peer), i);
    }
}

/// Filtering keeps a sequence whole when every element passes.
pub proof fn lemma_filter_keeps_all<A>(s: Seq<A>, pred: spec_fn(A) -> bool)
    requires
        forall|i: int| 0 <= i < s.len() ==> pred(#[trigger] s[i]),
    ensures
        s.filter(pred) == s,
    decreases s.len(),
{
    reveal(Seq::filter);
    if s.len() > 0 {
        lemma_filter_keeps_all(s.drop_last(), pred);
        assert(s.drop_last().push(s.last()) =~= s);
    }
}

/// Filtering leaves nothing when no element passes.
pub proof fn lemma_filter_keeps_none<A>(s: Seq<A>, pred: spec_fn(A) -> bool)
    requires
        forall|i: int| 0 <= i < s.len() ==> !pred(#[trigger] s[i]),
    ensures
        s.filter(pred).len() == 0,
    decreases s.len(),
{
    reveal(Seq::filter);
    if s.len() > 0 {
        lemma_filter_keeps_none(s.drop_last(), pred);
    }
}

/// Marking a peer inactive a second time changes nothing and deletes no
/// link.
pub proof fn lemma_mark_inactive_twice(links: Seq<ActiveLinkView>, peer: Seq<u8>)
    ensures
        marked_inactive(marked_inactive(links, peer), peer) == marked_inactive(links, peer),
        links_to(marked_inactive(links, peer), peer).len() == 0,
{
    let kept = marked_inactive(links, peer);
    assert forall|i: int| 0 <= i < kept.len() implies #[trigger] kept[i].1 != peer by {
        links.lemma_filter_pred(away_from(peer), i);
    }
    lemma_filter_keeps_all(kept, away_from(peer));
    lemma_filter_keeps_none(kept, toward(peer));
}

} // verus!
