use vstd::prelude::*;
use vstd::std_specs::cmp::PartialEqSpecImpl;

verus! {

/// The identity of a party or of a stored entity: 32 bytes that are only ever
/// stored and compared for equality.
#[derive(Clone, Copy, Debug, Eq)]
pub struct Principal {
    pub bytes: [u8; 32],
}

impl PartialEq for Principal {
    fn eq(&self, other: &Self) -> (r: bool) {
        let mut i: usize = 0;
        while i < 32
            invariant
                i <= 32,
                forall|j: int| 0 <= j < i ==> self.bytes[j] == other.bytes[j],
            decreases 32 - i,
        {
            if self.bytes[i] != other.bytes[i] {
                return false;
            }
            i += 1;
        }
        assert(self.bytes =~= other.bytes);
        true
    }
}

impl PartialEqSpecImpl for Principal {
    open spec fn obeys_eq_spec() -> bool {
        true
    }

    open spec fn eq_spec(&self, other: &Self) -> bool {
        *self == *other
    }
}

impl Principal {
    /// The principal made of the given bytes.
    pub fn new(bytes: [u8; 32]) -> (p: Principal)
        ensures
            p.bytes == bytes,
    {
        Principal { bytes }
    }

    /// The bytes of this principal.
    pub fn to_bytes(&self) -> (bytes: [u8; 32])
        ensures
            bytes == self.bytes,
    {
        self.bytes
    }
}

} // verus!
