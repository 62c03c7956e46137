use vstd::prelude::*;

verus! {

/// Width in bytes of an identity handle.
pub const KEY_LEN: usize = 32;

/// An identity handle on the ledger: an account, a wallet owner, an asset or a program.
#[derive(Clone, Copy, Debug, Hash)]
pub struct Key {
    pub bytes: [u8; 32],
}

impl View for Key {
    type V = Seq<u8>;

    open spec fn view(&self) -> Seq<u8> {
        self.bytes@
    }
}

impl Key {
    /// The handle whose bytes are `bytes`.
    pub fn new(bytes: [u8; 32]) -> (r: Key)
        ensures
            r@ == bytes@,
    {
        Key { bytes }
    }

    /// The handle made of zero bytes, which an empty record holds.
    pub fn zeroed() -> (r: Key)
        ensures
            r@ == Seq::new(32, |i: int| 0u8),
    {
        let r = Key { bytes: [0u8; 32] };
        assert(r@ =~= Seq::new(32, |i: int| 0u8));
        r
    }

    /// The bytes of the handle, as a vector.
    pub fn to_vec(&self) -> (r: Vec<u8>)
        ensures
            r@ == self@,
    {
        let mut r: Vec<u8> = Vec::new();
        let mut i: usize = 0;
        while i < KEY_LEN
            invariant
                i <= KEY_LEN,
                self@.len() == KEY_LEN,
                r@ == self@.subrange(0, i as int),
            decreases KEY_LEN - i,
        {
            r.push(self.bytes[i]);
            i = i + 1;
            assert(r@ =~= self@.subrange(0, i as int));
        }
        assert(r@ =~= self@);
        r
    }
}

impl PartialEq for Key {
    fn eq(&self, o: &Key) -> (r: bool) {
        let mut i: usize = 0;
        while i < KEY_LEN
            invariant
                i <= KEY_LEN,
                self@.len() == KEY_LEN,
                o@.len() == KEY_LEN,
                forall|j: int| 0 <= j < i ==> self@[j] == o@[j],
            decreases KEY_LEN - i,
        {
            if self.bytes[i] != o.bytes[i] {
                return false;
            }
            i = i + 1;
        }
        assert(self@ =~= o@);
        true
    }
}

impl vstd::std_specs::cmp::PartialEqSpecImpl for Key {
    open spec fn obeys_eq_spec() -> bool {
        true
    }

    open spec fn eq_spec(&self, o: &Key) -> bool {
        self@ == o@
    }
}

impl Eq for Key {
}

} // verus!
