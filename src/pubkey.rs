use vstd::prelude::*;

verus! {

/// Width in bytes of an identity on the ledger.
pub const PUBKEY_BYTES: usize = 32;

/// A ledger identity: the address of a record, or the key of a signer.
#[derive(Clone, Copy, Debug)]
pub struct Pubkey {
    pub bytes: [u8; PUBKEY_BYTES],
}

impl View for Pubkey {
    type V = Seq<u8>;

    open spec fn view(&self) -> Seq<u8> {
        self.bytes@
    }
}

impl Pubkey {
    pub fn new_from_array(bytes: [u8; PUBKEY_BYTES]) -> (r: Pubkey)
        ensures
            r.bytes == bytes,
            r@ == bytes@,
    {
        Pubkey { bytes }
    }

    pub fn to_bytes(&self) -> (r: [u8; PUBKEY_BYTES])
        ensures
            r == self.bytes,
            r@ == self@,
    {
        self.bytes
    }

    /// The identity as a byte vector, the form taken by address-derivation seeds.
    pub fn to_vec(&self) -> (r: Vec<u8>)
        ensures
            r@ == self@,
    {
        let mut v: Vec<u8> = Vec::new();
        let mut i: usize = 0;
        while i < PUBKEY_BYTES
            invariant
                i <= PUBKEY_BYTES,
                self@.len() == PUBKEY_BYTES,
                v@ == self@.subrange(0, i as int),
            decreases PUBKEY_BYTES - i,
        {
            v.push(self.bytes[i]);
            i = i + 1;
            assert(v@ =~= self@.subrange(0, i as int));
        }
        assert(v@ =~= self@);
        v
    }

    /// Reads the identity stored at `data[at..at + 32]`.
    pub fn read_at(data: &[u8], at: usize) -> (r: Pubkey)
        requires
            at + PUBKEY_BYTES <= data@.len(),
        ensures
            r@ == data@.subrange(at as int, at + PUBKEY_BYTES),
    {
        let n: usize = data.len();
        let mut bytes: [u8; PUBKEY_BYTES] = [0u8; PUBKEY_BYTES];
        let mut i: usize = 0;
        while i < PUBKEY_BYTES
            invariant
                i <= PUBKEY_BYTES,
                at + PUBKEY_BYTES <= n,
                n == data@.len(),
                bytes@.len() == PUBKEY_BYTES,
                forall|j: int| 0 <= j < i ==> bytes@[j] == data@[at + j],
            decreases PUBKEY_BYTES - i,
        {
            bytes[i] = data[at + i];
            i = i + 1;
        }
        let r = Pubkey { bytes };
        assert(r@ =~= data@.subrange(at as int, at + PUBKEY_BYTES));
        r
    }
}

impl PartialEq for Pubkey {
    fn eq(&self, other: &Pubkey) -> (r: bool)
        ensures
            r == (self@ == other@),
    {
        let mut i: usize = 0;
        while i < PUBKEY_BYTES
            invariant
                i <= PUBKEY_BYTES,
                self@.len() == PUBKEY_BYTES,
                other@.len() == PUBKEY_BYTES,
                forall|j: int| 0 <= j < i ==> self@[j] == other@[j],
            decreases PUBKEY_BYTES - i,
        {
            if self.bytes[i] != other.bytes[i] {
                return false;
            }
            i = i + 1;
        }
        assert(self@ =~= other@);
        true
    }
}

impl vstd::std_specs::cmp::PartialEqSpecImpl for Pubkey {
    open spec fn obeys_eq_spec() -> bool {
        true
    }

    open spec fn eq_spec(&self, other: &Pubkey) -> bool {
        self@ == other@
    }
}

impl Eq for Pubkey {
}

} // verus!
