//! Principals: the accounts and contracts that hold funds and sign calls.

use crate::store::TableKey;
use vstd::prelude::*;

verus! {

/// A 32-byte opaque digest: a commitment, a nullifier or a key identifier.
pub type Digest = [u8; 32];

/// A principal of the ledger.
#[derive(Clone, Copy, Debug, PartialEq, Eq)]
pub enum Address {
    /// An account, named by its Ed25519 public key.
    Account([u8; 32]),
    /// A contract, named by its identifying hash.
    Contract([u8; 32]),
}

impl TableKey for Address {
    fn same(&self, other: &Self) -> (eq: bool) {
        match (self, other) {
            (Address::Account(a), Address::Account(b)) => a.same(b),
            (Address::Contract(a), Address::Contract(b)) => a.same(b),
            _ => false,
        }
    }
}

/// The bytes that open the XDR form of an address value: the value's type
/// tag, then the address kind, then (for an account) the key type.
pub open spec fn xdr_header(address: Address) -> Seq<u8> {
    match address {
        Address::Account(_) => seq![0u8, 0u8, 0u8, 18u8, 0u8, 0u8, 0u8, 0u8, 0u8, 0u8, 0u8, 0u8],
        Address::Contract(_) => seq![0u8, 0u8, 0u8, 18u8, 0u8, 0u8, 0u8, 1u8],
    }
}

impl Address {
    /// The 32 bytes that name the principal.
    pub open spec fn key(self) -> Seq<u8> {
        match self {
            Address::Account(k) => k@,
            Address::Contract(k) => k@,
        }
    }

    /// The canonical XDR serialisation of the address as a contract value.
    pub open spec fn xdr(self) -> Seq<u8> {
        xdr_header(self) + self.key()
    }

    /// Serialises the address to its canonical XDR bytes.
    pub fn to_xdr(&self) -> (bytes: Vec<u8>)
        ensures
            bytes@ == self.xdr(),
    {
        let mut out: Vec<u8> = Vec::new();
        out.push(0);
        out.push(0);
        out.push(0);
        out.push(18);
        out.push(0);
        out.push(0);
        out.push(0);
        let key = match self {
            Address::Account(k) => {
                out.push(0);
                out.push(0);
                out.push(0);
                out.push(0);
                out.push(0);
                k
            },
            Address::Contract(k) => {
                out.push(1);
                k
            },
        };
        assert(out@ =~= xdr_header(*self));
        let mut i: usize = 0;
        while i < 32
            invariant
                i <= 32,
                key@ == self.key(),
                out@ =~= xdr_header(*self) + key@.subrange(0, i as int),
            decreases 32 - i,
        {
            out.push(key[i]);
            i = i + 1;
        }
        assert(key@.subrange(0, 32) =~= key@);
        out
    }
}

} // verus!
