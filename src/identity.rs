use vstd::prelude::*;

verus! {

/// A content-addressed hash in its raw 39-byte form (three prefix bytes,
/// the 32-byte core and four location bytes), as the ledger hands it out.
/// Agents, actions and networks are all named by such a hash.
pub struct RawHash {
    pub raw: Vec<u8>,
}

/// The public key of an agent: its identity and the anchor of its links.
pub type AgentPubKey = RawHash;

/// The hash of a committed action (a ledger record's header).
pub type ActionHash = RawHash;

/// The hash of an entry.
pub type EntryHash = RawHash;

/// The hash that identifies the network (the DNA) the agents share.
pub type DnaHash = RawHash;

impl View for RawHash {
    type V = Seq<u8>;

    open spec fn view(&self) -> Seq<u8> {
        self.raw@
    }
}

impl Clone for RawHash {
    fn clone(&self) -> (r: Self)
        ensures
            r@ == self@,
    {
        let raw = self.raw.clone();
        assert(raw@ =~= self.raw@);
        RawHash { raw }
    }
}

/// Byte-wise equality of two byte vectors.
pub fn same_bytes(a: &Vec<u8>, b: &Vec<u8>) -> (r: bool)
    ensures
        r == (a@ == b@),
{
    if a.len() != b.len() {
        return false;
    }
    let mut i: usize = 0;
    while i < a.len()
        invariant
            a@.len() == b@.len(),
            0 <= i <= a@.len(),
            a@.subrange(0, i as int) == b@.subrange(0, i as int),
        decreases a@.len() - i,
    {
        if a[i] != b[i] {
            assert(a@[i as int] != b@[i as int]);
            return false;
        }
        assert(a@.subrange(0, i + 1) =~= a@.subrange(0, i as int).push(a@[i as int]));
        assert(b@.subrange(0, i + 1) =~= b@.subrange(0, i as int).push(b@[i as int]));
        i = i + 1;
    }
    assert(a@ =~= a@.subrange(0, a@.len() as int));
    assert(b@ =~= b@.subrange(0, b@.len() as int));
    true
}

impl RawHash {
    /// Wraps raw hash bytes.
    pub fn from_raw(raw: Vec<u8>) -> (r: Self)
        ensures
            r@ == raw@,
    {
        RawHash { raw }
    }

    /// Whether two hashes name the same thing.
    pub fn same(&self, other: &RawHash) -> (r: bool)
        ensures
            r == (self@ == other@),
    {
        same_bytes(&self.raw, &other.raw)
    }
}

/// Where a link may point: the ledger addresses agents, actions, entries
/// and hashes from outside the ledger alike.
pub enum AnyLinkableHash {
    Agent(AgentPubKey),
    Action(ActionHash),
    Entry(EntryHash),
    External(RawHash),
}

impl AnyLinkableHash {
    /// The agent key this address names, if it names an agent.
    pub fn into_agent_pub_key(self) -> (r: Option<AgentPubKey>)
        ensures
            r == (match self {
                AnyLinkableHash::Agent(a) => Some(a),
                _ => None::<AgentPubKey>,
            }),
    {
        match self {
            AnyLinkableHash::Agent(a) => Some(a),
            _ => None,
        }
    }

    /// The action hash this address names, if it names an action.
    pub fn into_action_hash(self) -> (r: Option<ActionHash>)
        ensures
            r == (match self {
                AnyLinkableHash::Action(a) => Some(a),
                _ => None::<ActionHash>,
            }),
    {
        match self {
            AnyLinkableHash::Action(a) => Some(a),
            _ => None,
        }
    }
}

/// The view of an optional hash.
pub open spec fn opt_key(o: Option<RawHash>) -> Option<Seq<u8>> {
    match o {
        Some(h) => Some(h@),
        None => None,
    }
}

/// The views of a sequence of keys.
pub open spec fn key_views(keys: Seq<RawHash>) -> Seq<Seq<u8>> {
    keys.map_values(|k: RawHash| k@)
}

/// Whether `key` is among `keys`.
pub fn contains_key(keys: &Vec<RawHash>, key: &RawHash) -> (r: bool)
    ensures
        r == key_views(keys@).contains(key@),
{
    let mut i: usize = 0;
    while i < keys.len()
        invariant
            0 <= i <= keys@.len(),
            forall|j: int| 0 <= j < i ==> keys@[j]@ != key@,
        decreases keys@.len() - i,
    {
        if keys[i].same(key) {
            assert(key_views(keys@)[i as int] == key@);
            return true;
        }
        i = i + 1;
    }
    assert(!key_views(keys@).contains(key@)) by {
        if key_views(keys@).contains(key@) {
            let j = choose|j: int| 0 <= j < key_views(keys@).len() && key_views(keys@)[j] == key@;
            assert(keys@[j]@ == key@);
        }
    }
    false
}

} // verus!
