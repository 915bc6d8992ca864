//! Account addresses (public keys) as plain 32-byte values.
use vstd::prelude::*;

verus! {

/// The 32 bytes of an account's public key.
#[derive(Clone, Copy, Debug)]
pub struct Address {
    pub bytes: [u8; 32],
}

impl View for Address {
    type V = Seq<u8>;

    open spec fn view(&self) -> Seq<u8> {
        self.bytes@
    }
}

/// The all-zero key: the system program, and the contents of a fresh account.
pub open spec fn zero_key() -> Seq<u8> {
    Seq::new(32, |i: int| 0u8)
}

impl Address {
    /// An address with the given bytes.
    pub fn new(bytes: [u8; 32]) -> (a: Address)
        ensures
            a@ == bytes@,
    {
        Address { bytes }
    }

    /// The all-zero address.
    pub fn zero() -> (a: Address)
        ensures
            a@ == zero_key(),
    {
        let a = Address { bytes: [0u8; 32] };
        assert(a@ =~= zero_key());
        a
    }

    /// Whether two addresses hold the same key.
    pub fn same(&self, other: &Address) -> (r: bool)
        ensures
            r == (self@ == other@),
    {
        let mut i: usize = 0;
        while i < 32
            invariant
                i <= 32,
                self@.len() == 32,
                other@.len() == 32,
                forall|j: int| 0 <= j < i ==> self@[j] == other@[j],
            decreases 32 - i,
        {
            if self.bytes[i] != other.bytes[i] {
                assert(self@[i as int] != other@[i as int]);
                return false;
            }
            i = i + 1;
        }
        assert(self@ =~= other@);
        true
    }

    /// The key's bytes, as a vector.
    pub fn to_vec(&self) -> (v: Vec<u8>)
        ensures
            v@ == self@,
    {
        let mut v: Vec<u8> = Vec::new();
        let mut i: usize = 0;
        while i < 32
            invariant
                i <= 32,
                self@.len() == 32,
                v@ == self@.take(i as int),
            decreases 32 - i,
        {
            v.push(self.bytes[i]);
            i = i + 1;
            assert(v@ =~= self@.take(i as int));
        }
        assert(self@.take(32) =~= self@);
        v
    }
}

} // verus!
