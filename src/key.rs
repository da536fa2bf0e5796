use vstd::prelude::*;

verus! {

/// Length in bytes of a public key.
pub const KEY_LEN: usize = 32;

/// A fixed-size public identifier: an account, a signer or a mint.
/// The all-zero key stands for "unset".
#[derive(Clone, Copy, Debug)]
pub struct PublicKey {
    pub bytes: [u8; 32],
}

impl View for PublicKey {
    type V = Seq<u8>;

    open spec fn view(&self) -> Seq<u8> {
        self.bytes@
    }
}

/// The all-zero key.
pub open spec fn unset_key() -> Seq<u8> {
    Seq::new(32, |i: int| 0u8)
}

impl PublicKey {
    /// A key made of the given bytes.
    pub fn new(bytes: [u8; 32]) -> (r: PublicKey)
        ensures
            r@ == bytes@,
    {
        PublicKey { bytes }
    }

    /// The unset (all-zero) key.
    pub fn unset() -> (r: PublicKey)
        ensures
            r@ == unset_key(),
    {
        let r = PublicKey { bytes: [0u8; 32] };
        assert(r@ =~= unset_key());
        r
    }

    /// Whether every byte of the key is zero.
    pub fn is_unset(&self) -> (r: bool)
        ensures
            r == (self@ == unset_key()),
    {
        let mut i: usize = 0;
        while i < KEY_LEN
            invariant
                i <= KEY_LEN,
                self@.len() == KEY_LEN,
                forall|j: int| 0 <= j < i ==> self@[j] == 0u8,
            decreases KEY_LEN - i,
        {
            if self.bytes[i] != 0 {
                assert(self@[i as int] != unset_key()[i as int]);
                return false;
            }
            i = i + 1;
        }
        assert(self@ =~= unset_key());
        true
    }

    /// The bytes of the key.
    pub fn to_bytes(&self) -> (r: [u8; 32])
        ensures
            r@ == self@,
    {
        self.bytes
    }
}

impl Default for PublicKey {
    fn default() -> (r: PublicKey)
        ensures
            r@ == unset_key(),
    {
        PublicKey::unset()
    }
}

impl PartialEq for PublicKey {
    fn eq(&self, o: &PublicKey) -> (r: bool) {
        let mut i: usize = 0;
        while i < KEY_LEN
            invariant
                i <= KEY_LEN,
                self@.len() == KEY_LEN,
                o@.len() == KEY_LEN,
                forall|j: int| 0 <= j < i ==> self@[j] == o@[j],
            decreases KEY_LEN - i,
        {
            if self.bytes[i] != o.bytes[i] {
                return false;
            }
            i = i + 1;
        }
        assert(self@ =~= o@);
        true
    }
}

impl vstd::std_specs::cmp::PartialEqSpecImpl for PublicKey {
    open spec fn obeys_eq_spec() -> bool {
        true
    }

    open spec fn eq_spec(&self, o: &PublicKey) -> bool {
        self@ == o@
    }
}

impl Eq for PublicKey {
}

} // verus!
