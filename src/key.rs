//! Record addresses.
use vstd::prelude::*;

verus! {

/// The 32-byte address of a record or a token account.
#[derive(Clone, Copy, Debug)]
pub struct Pubkey {
    pub bytes: [u8; 32],
}

impl Pubkey {
    /// Whether every byte is zero.
    pub open spec fn is_zeroed(self) -> bool {
        self.bytes@ == Seq::new(32, |i: int| 0u8)
    }

    /// The all-zero address, which stands for "none".
    pub fn zeroed() -> (r: Pubkey)
        ensures
            r.is_zeroed(),
    {
        let r = Pubkey { bytes: [0u8; 32] };
        assert(r.bytes@ =~= Seq::new(32, |i: int| 0u8));
        r
    }

    /// Builds an address from its bytes.
    pub fn new(bytes: [u8; 32]) -> (r: Pubkey)
        ensures
            r.bytes == bytes,
    {
        Pubkey { bytes }
    }
}

/// Whether two addresses are the same.
pub open spec fn key_eq(a: Pubkey, b: Pubkey) -> bool {
    a.bytes@ == b.bytes@
}

impl PartialEq for Pubkey {
    fn eq(&self, other: &Pubkey) -> (r: bool) {
        let mut i: usize = 0;
        while i < 32
            invariant
                i <= 32,
                forall|j: int| 0 <= j < i ==> self.bytes[j] == other.bytes[j],
            decreases 32 - i,
        {
            if self.bytes[i] != other.bytes[i] {
                return false;
            }
            i = i + 1;
        }
        assert(self.bytes@ =~= other.bytes@);
        true
    }
}

impl vstd::std_specs::cmp::PartialEqSpecImpl for Pubkey {
    open spec fn obeys_eq_spec() -> bool {
        true
    }

    open spec fn eq_spec(&self, other: &Pubkey) -> bool {
        self.bytes@ == other.bytes@
    }
}

impl Eq for Pubkey {
}

} // verus!
