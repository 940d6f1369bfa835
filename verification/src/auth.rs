//! The authorization a call carries.
//!
//! The host that runs a call knows which principals signed it.  The protocol
//! sees that knowledge as a value handed to each operation that needs it.

use crate::address::Address;
use crate::store::TableKey;
use vstd::prelude::*;

verus! {

/// The principals that have signed the current call.
pub struct AuthorizationContext {
    signers: Vec<Address>,
}

impl AuthorizationContext {
    /// The set of principals whose signature the call carries.
    pub closed spec fn view(&self) -> Set<Address> {
        self.signers@.to_set()
    }

    /// A context that carries no signature.
    pub fn new() -> (auth: Self)
        ensures
            auth@ == Set::<Address>::empty(),
    {
        let auth = AuthorizationContext { signers: Vec::new() };
        assert(auth@ =~= Set::<Address>::empty());
        auth
    }

    /// Adds `who` to the signers.
    pub fn authorize(&mut self, who: Address)
        ensures
            final(self)@ == old(self)@.insert(who),
    {
        let ghost before = self.signers@;
        self.signers.push(who);
        proof {
            assert forall|a: Address| #[trigger] self.signers@.contains(a) implies before.contains(a)
                || a == who by {
                let j = choose|j: int| 0 <= j < self.signers@.len() && self.signers@[j] == a;
                if j < before.len() {
                    assert(before[j] == a);
                }
            }
            assert forall|a: Address| before.contains(a) implies #[trigger] self.signers@.contains(
                a,
            ) by {
                let j = choose|j: int| 0 <= j < before.len() && before[j] == a;
                assert(self.signers@[j] == a);
            }
            assert(self.signers@[before.len() as int] == who);
            assert(self@ =~= old(self)@.insert(who));
        }
    }

    /// Whether `who` has signed the call.
    pub fn has_authorized(&self, who: &Address) -> (signed: bool)
        ensures
            signed == self@.contains(*who),
    {
        let mut i: usize = 0;
        while i < self.signers.len()
            invariant
                i <= self.signers@.len(),
                forall|j: int| 0 <= j < i ==> self.signers@[j] != *who,
            decreases self.signers@.len() - i,
        {
            if self.signers[i].same(who) {
                return true;
            }
            i = i + 1;
        }
        false
    }
}

} // verus!
