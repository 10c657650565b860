//! Account addresses.
use vstd::prelude::*;

verus! {

/// The address of an account: thirty-two bytes, equal when all bytes are.
#[derive(Clone, Copy, Debug, Eq, Hash)]
pub struct Pubkey {
    pub bytes: [u8; 32],
}

impl View for Pubkey {
    type V = Seq<u8>;

    open spec fn view(&self) -> Seq<u8> {
        self.bytes@
    }
}

impl PartialEq for Pubkey {
    fn eq(&self, other: &Self) -> (equal: bool) {
        let mut i: usize = 0;
        while i < 32
            invariant
                i <= 32,
                forall|j: int| 0 <= j < i ==> self.bytes[j] == other.bytes[j],
            decreases 32 - i,
        {
            if self.bytes[i] != other.bytes[i] {
                return false;
            }
            i = i + 1;
        }
        assert(self.bytes =~= other.bytes);
        true
    }
}

impl vstd::std_specs::cmp::PartialEqSpecImpl for Pubkey {
    open spec fn obeys_eq_spec() -> bool {
        true
    }

    open spec fn eq_spec(&self, other: &Self) -> bool {
        *self == *other
    }
}

/// The bytes of the key that fills unused slots.
pub const ZERO_BYTES: [u8; 32] = [
    0, 0, 0, 0, 0, 0, 0, 0, 0, 0, 0, 0, 0, 0, 0, 0,
    0, 0, 0, 0, 0, 0, 0, 0, 0, 0, 0, 0, 0, 0, 0, 0,
];

/// The key whose bytes are all zero.
pub open spec fn zero_key() -> Pubkey {
    Pubkey { bytes: ZERO_BYTES }
}

impl Default for Pubkey {
    fn default() -> (key: Pubkey)
        ensures
            key == zero_key(),
            forall|i: int| 0 <= i < 32 ==> key@[i] == 0,
    {
        Pubkey { bytes: ZERO_BYTES }
    }
}

/// The bytes of an optional key.
pub open spec fn key_bytes(key: Option<Pubkey>) -> Option<Seq<u8>> {
    match key {
        Some(key) => Some(key@),
        None => None,
    }
}

/// Two keys are equal when their bytes are.
pub broadcast proof fn lemma_key_is_its_bytes(a: Pubkey, b: Pubkey)
    ensures
        #![trigger a@, b@]
        a == b <==> a@ == b@,
{
    if a@ == b@ {
        assert forall|i: int| 0 <= i < 32 implies a.bytes[i] == b.bytes[i] by {
            assert(a@[i] == b@[i]);
        }
        assert(a.bytes =~= b.bytes);
    }
}

} // verus!
