use vstd::prelude::*;
use vstd::std_specs::cmp::PartialEqSpecImpl;

verus! {

/// A 32-byte account address, held as plain bytes.
#[derive(Clone, Copy, Debug)]
pub struct Pubkey {
    pub bytes: [u8; 32],
}

impl Pubkey {
    pub open spec fn key_eq(self, other: Self) -> bool {
        self.bytes@ == other.bytes@
    }

    /// All bytes are zero: the address that marks an unset key.
    pub open spec fn is_zero(self) -> bool {
        forall|i: int| 0 <= i < 32 ==> #[trigger] self.bytes@[i] == 0u8
    }

    pub fn new_from_array(bytes: [u8; 32]) -> (r: Self)
        ensures
            r.bytes@ == bytes@,
    {
        Pubkey { bytes }
    }

    pub fn to_bytes(&self) -> (r: [u8; 32])
        ensures
            r@ == self.bytes@,
    {
        self.bytes
    }
}

impl PartialEq for Pubkey {
    fn eq(&self, other: &Self) -> (r: bool) {
        let mut i: usize = 0;
        while i < 32
            invariant
                i <= 32,
                forall|j: int| 0 <= j < i ==> self.bytes@[j] == other.bytes@[j],
            decreases 32 - i,
        {
            if self.bytes[i] != other.bytes[i] {
                return false;
            }
            i = i + 1;
        }
        assert(self.bytes@ =~= other.bytes@);
        true
    }
}

impl PartialEqSpecImpl for Pubkey {
    open spec fn obeys_eq_spec() -> bool {
        true
    }

    open spec fn eq_spec(&self, other: &Self) -> bool {
        self.bytes@ == other.bytes@
    }
}

impl Eq for Pubkey {}

impl Default for Pubkey {
    fn default() -> (r: Self)
        ensures
            r.is_zero(),
    {
        Pubkey { bytes: [0u8; 32] }
    }
}

} // verus!
