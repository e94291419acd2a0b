use vstd::prelude::*;

verus! {

/// A 32-byte account address.
#[derive(Clone, Copy, Debug, PartialEq, Eq)]
pub struct Address {
    pub bytes: [u8; 32],
}

impl View for Address {
    type V = Seq<u8>;

    open spec fn view(&self) -> Seq<u8> {
        self.bytes@
    }
}

impl Address {
    /// Builds an address from its bytes.
    pub fn new_from_array(bytes: [u8; 32]) -> (res: Address)
        ensures
            res.bytes == bytes,
    {
        Address { bytes }
    }

    /// Whether two addresses are the same address, compared byte by byte.
    pub fn same_as(&self, other: &Address) -> (res: bool)
        ensures
            res <==> self@ == other@,
    {
        let mut i: usize = 0;
        while i < 32
            invariant
                i <= 32,
                forall|j: int| 0 <= j < i ==> self@[j] == other@[j],
            decreases 32 - i,
        {
            if self.bytes[i] != other.bytes[i] {
                return false;
            }
            i = i + 1;
        }
        assert(self@ =~= other@);
        true
    }
}

} // verus!
