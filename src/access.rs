use vstd::prelude::*;

verus! {

/// Who may use a capability grant.
#[derive(Clone, Copy, Debug, PartialEq, Eq, Structural)]
pub enum CapAccess {
    /// Any agent, with no secret.
    Unrestricted,
}

/// A zome function a grant opens.
pub struct GrantedFunction {
    pub zome: String,
    pub function: String,
}

/// A capability grant: the functions it opens, and to whom.
pub struct CapGrantEntry {
    pub tag: String,
    pub access: CapAccess,
    pub functions: Vec<GrantedFunction>,
}

/// The one function peers may call: the relay-receive entry point.
pub open spec fn receive_entry_point() -> Seq<char> {
    seq![
        'r', 'e', 'c', 'v', '_', 'r', 'e', 'm', 'o', 't', 'e', '_', 's', 'i', 'g', 'n', 'a', 'l'
    ]
}

/// The grant made once, when the zome named `zome_name` starts: any agent
/// may call the relay-receive entry point of this zome, and nothing else.
/// It is never revoked.
pub fn init(zome_name: String) -> (r: CapGrantEntry)
    ensures
        r.tag@.len() == 0,
        r.access == CapAccess::Unrestricted,
        r.functions@.len() == 1,
        r.functions@[0].zome@ == zome_name@,
        r.functions@[0].function@ == receive_entry_point(),
{
    let function = String::from_str("recv_remote_signal");
    proof {
        reveal_strlit("recv_remote_signal");
    }
    assert(function@ =~= receive_entry_point());
    let mut functions: Vec<GrantedFunction> = Vec::new();
    functions.push(GrantedFunction { zome: zome_name, function });
    CapGrantEntry { tag: String::new(), access: CapAccess::Unrestricted, functions }
}

impl CapGrantEntry {
    /// Whether the grant lets a caller run `function` of `zome`.
    pub fn allows(&self, zome: &String, function: &String) -> (r: bool)
        ensures
            r == exists|i: int|
                0 <= i < self.functions@.len() && #[trigger] self.functions@[i].zome@ == zome@
                    && self.functions@[i].function@ == function@,
    {
        let mut i: usize = 0;
        while i < self.functions.len()
            invariant
                0 <= i <= self.functions@.len(),
                forall|j: int|
                    0 <= j < i ==> !(#[trigger] self.functions@[j].zome@ == zome@
                        && self.functions@[j].function@ == function@),
            decreases self.functions@.len() - i,
        {
            if self.functions[i].zome == *zome && self.functions[i].function == *function {
                return true;
            }
            i = i + 1;
        }
        false
    }
}

} // verus!
