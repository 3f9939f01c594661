use vstd::prelude::*;

verus! {

/// The 32-byte address of an actor in the mesh: a participant token, an
/// owner, the attribute store or the program itself.
#[derive(Clone, Copy, Debug)]
pub struct ActorId {
    pub bytes: [u8; 32],
}

impl ActorId {
    pub fn new(bytes: [u8; 32]) -> (r: ActorId)
        ensures
            r.bytes == bytes,
    {
        ActorId { bytes }
    }

    /// The all-zero address.
    pub fn zero() -> (r: ActorId)
        ensures
            forall|i: int| 0 <= i < 32 ==> r.bytes[i] == 0,
    {
        ActorId { bytes: [0u8; 32] }
    }

    /// Whether two addresses are the same, byte by byte.
    pub fn same_as(&self, other: &ActorId) -> (r: bool)
        ensures
            r == (*self == *other),
    {
        let mut i: usize = 0;
        while i < 32
            invariant
                i <= 32,
                forall|j: int| 0 <= j < i ==> self.bytes[j] == other.bytes[j],
            decreases 32 - i,
        {
            if self.bytes[i] != other.bytes[i] {
                return false;
            }
            i = i + 1;
        }
        assert(self.bytes =~= other.bytes);
        true
    }
}

impl PartialEq for ActorId {
    fn eq(&self, other: &ActorId) -> (r: bool) {
        self.same_as(other)
    }
}

impl vstd::std_specs::cmp::PartialEqSpecImpl for ActorId {
    open spec fn obeys_eq_spec() -> bool {
        true
    }

    open spec fn eq_spec(&self, other: &ActorId) -> bool {
        *self == *other
    }
}

impl Eq for ActorId {
}

} // verus!
