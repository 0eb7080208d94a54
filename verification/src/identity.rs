use vstd::prelude::*;

verus! {

/// An already-authenticated identity: the 32 bytes of a public key. Nothing
/// here checks a signature; an operation only compares the caller's key with
/// the key that a record holds for a role.
#[derive(Clone, Copy, Debug, PartialEq, Eq, Hash)]
pub struct IdentityKey {
    pub bytes: [u8; 32],
}

impl View for IdentityKey {
    type V = Seq<u8>;

    open spec fn view(&self) -> Seq<u8> {
        self.bytes@
    }
}

/// The bytes of the key that stands for "nobody yet": thirty-two zeros.
pub open spec fn unset_bytes() -> Seq<u8> {
    Seq::new(32, |i: int| 0u8)
}

impl IdentityKey {
    pub fn new(bytes: [u8; 32]) -> (key: IdentityKey)
        ensures
            key@ == bytes@,
    {
        IdentityKey { bytes }
    }

    /// The key that stands for "nobody yet".
    pub fn unset() -> (key: IdentityKey)
        ensures
            key@ == unset_bytes(),
    {
        let key = IdentityKey { bytes: [0u8; 32] };
        assert(key@ =~= unset_bytes());
        key
    }

    /// Whether the two keys hold the same bytes.
    pub fn same_as(&self, other: &IdentityKey) -> (same: bool)
        ensures
            same == (self@ == other@),
    {
        let mut i: usize = 0;
        while i < 32
            invariant
                0 <= i <= 32,
                forall|j: int| 0 <= j < i ==> self@[j] == other@[j],
            decreases 32 - i,
        {
            if self.bytes[i] != other.bytes[i] {
                return false;
            }
            i += 1;
        }
        assert(self@ =~= other@);
        true
    }

    /// Whether this is the key that stands for "nobody yet".
    pub fn is_unset(&self) -> (unset: bool)
        ensures
            unset == (self@ == unset_bytes()),
    {
        let nobody = IdentityKey::unset();
        self.same_as(&nobody)
    }
}

impl Default for IdentityKey {
    fn default() -> (key: IdentityKey)
        ensures
            key@ == unset_bytes(),
    {
        IdentityKey::unset()
    }
}

} // verus!
