//! Account addresses: thirty-two opaque bytes.

use vstd::prelude::*;

verus! {

/// An account address of the ledger.
#[derive(Clone, Copy, Debug, PartialEq, Eq)]
pub struct Address {
    pub bytes: [u8; 32],
}

impl View for Address {
    type V = Seq<u8>;

    open spec fn view(&self) -> Seq<u8> {
        self.bytes@
    }
}

impl Address {
    /// Wraps thirty-two bytes as an address.
    pub fn new(bytes: [u8; 32]) -> (a: Address)
        ensures
            a.bytes == bytes,
            a@ == bytes@,
    {
        Address { bytes }
    }

    /// Tells whether two addresses hold the same bytes.
    pub fn same_as(&self, other: &Address) -> (same: bool)
        ensures
            same == (self@ == other@),
            same == (*self == *other),
    {
        let mut i: usize = 0;
        while i < 32
            invariant
                i <= 32,
                forall|k: int| 0 <= k < i ==> self.bytes@[k] == other.bytes@[k],
            decreases 32 - i,
        {
            if self.bytes[i] != other.bytes[i] {
                return false;
            }
            i += 1;
        }
        proof {
            assert(self.bytes =~= other.bytes);
        }
        true
    }

    /// Copies the address into a fresh byte vector.
    pub fn to_vec(&self) -> (v: Vec<u8>)
        ensures
            v@ == self@,
    {
        let mut v: Vec<u8> = Vec::new();
        self.append_to(&mut v);
        v
    }

    /// Appends the thirty-two bytes of the address to `out`.
    pub fn append_to(&self, out: &mut Vec<u8>)
        ensures
            final(out)@ == old(out)@ + self@,
    {
        let mut i: usize = 0;
        while i < 32
            invariant
                i <= 32,
                out@ == old(out)@ + self.bytes@.subrange(0, i as int),
            decreases 32 - i,
        {
            out.push(self.bytes[i]);
            i += 1;
        }
        assert(self.bytes@.subrange(0, 32) =~= self.bytes@);
    }

    /// Reads an address from `bytes`, which must be thirty-two.
    pub fn from_slice(bytes: &[u8]) -> (a: Option<Address>)
        ensures
            a is Some <==> bytes@.len() == 32,
            a matches Some(address) ==> address@ == bytes@,
    {
        if bytes.len() != 32 {
            return None;
        }
        let address = Address::read_from(bytes, 0);
        assert(bytes@.subrange(0, 32) =~= bytes@);
        Some(address)
    }

    /// Reads an address from the thirty-two bytes of `bytes` that start at
    /// `start`.
    pub(crate) fn read_from(bytes: &[u8], start: usize) -> (a: Address)
        requires
            start + 32 <= bytes@.len(),
        ensures
            a@ == bytes@.subrange(start as int, start + 32),
    {
        let mut array: [u8; 32] = [0u8; 32];
        let length: usize = bytes.len();
        let mut i: usize = 0;
        while i < 32
            invariant
                i <= 32,
                length == bytes@.len(),
                start + 32 <= length,
                forall|k: int| 0 <= k < i ==> array@[k] == bytes@[start + k],
            decreases 32 - i,
        {
            array[i] = bytes[start + i];
            i += 1;
        }
        assert(array@ =~= bytes@.subrange(start as int, start + 32));
        Address { bytes: array }
    }
}

/// Two addresses with the same bytes are the same address.
pub proof fn address_determined_by_bytes(a: Address, b: Address)
    requires
        a@ == b@,
    ensures
        a == b,
{
    assert(a.bytes =~= b.bytes);
}

} // verus!
