//! Principals: the identities that own records and make operations.

use vstd::prelude::*;
use vstd::std_specs::cmp::PartialEqSpecImpl;

verus! {

/// A unique identity that owns records and authorises operations: thirty-two
/// bytes, compared byte for byte.
#[derive(Clone, Copy, Debug, Eq)]
pub struct Principal {
    pub bytes: [u8; 32],
}

impl PartialEq for Principal {
    fn eq(&self, other: &Self) -> (r: bool) {
        let mut i: usize = 0;
        while i < 32
            invariant
                i <= 32,
                forall|j: int| 0 <= j < i ==> self.bytes@[j] == other.bytes@[j],
            decreases 32 - i,
        {
            if self.bytes[i] != other.bytes[i] {
                return false;
            }
            i += 1;
        }
        assert(self.bytes =~= other.bytes);
        true
    }
}

impl PartialEqSpecImpl for Principal {
    open spec fn obeys_eq_spec() -> bool {
        true
    }

    open spec fn eq_spec(&self, other: &Self) -> bool {
        *self == *other
    }
}

impl Principal {
    /// The identity whose bytes are all zero. It stands for "nobody": a
    /// reference that points at no account.
    pub open spec fn nobody() -> Principal {
        Principal { bytes: vstd::array::spec_array_fill_for_copy_type::<u8, 32>(0u8) }
    }

    /// The identity whose bytes are all ones.
    pub open spec fn all_ones() -> Principal {
        Principal { bytes: vstd::array::spec_array_fill_for_copy_type::<u8, 32>(255u8) }
    }

    /// An identity that is not this one: nobody, or for nobody the identity
    /// of all ones.
    pub open spec fn other_than(self) -> Principal {
        if self == Principal::nobody() {
            Principal::all_ones()
        } else {
            Principal::nobody()
        }
    }

    /// What `other_than` gives is another identity indeed.
    pub proof fn other_than_is_another(self)
        ensures
            self.other_than() != self,
    {
        assert(Principal::all_ones().bytes@[0] != Principal::nobody().bytes@[0]);
    }

    /// An identity that is not this one.
    pub fn stranger(&self) -> (other: Principal)
        ensures
            other == self.other_than(),
            other != *self,
    {
        proof {
            self.other_than_is_another();
        }
        if self.is_nobody() {
            let other = Principal { bytes: [255u8; 32] };
            assert(other.bytes =~= Principal::all_ones().bytes);
            other
        } else {
            Principal::default()
        }
    }

    /// The identity made of the given bytes.
    pub fn new(bytes: [u8; 32]) -> (p: Principal)
        ensures
            p.bytes == bytes,
    {
        Principal { bytes }
    }

    /// The bytes of this identity.
    pub fn to_bytes(&self) -> (bytes: [u8; 32])
        ensures
            bytes == self.bytes,
    {
        self.bytes
    }

    /// Whether this is the all-zero identity.
    pub fn is_nobody(&self) -> (r: bool)
        ensures
            r == (*self == Principal::nobody()),
    {
        let zero = Principal::default();
        *self == zero
    }
}

impl Default for Principal {
    fn default() -> (p: Principal)
        ensures
            p == Principal::nobody(),
    {
        let p = Principal { bytes: [0u8; 32] };
        assert(p.bytes =~= Principal::nobody().bytes);
        p
    }
}

/// Whether an optional identity is present and equal to `p`.
pub fn is_some_of(slot: &Option<Principal>, p: &Principal) -> (r: bool)
    ensures
        r == (*slot == Some(*p)),
{
    match slot {
        Some(q) => *q == *p,
        None => false,
    }
}

} // verus!
