use vstd::prelude::*;

verus! {

broadcast use vstd::array::group_array_axioms;

/// A 32-byte identity: a signer, an administrator, an asset, a recipient,
/// or the producer of a verification record.
///
/// The engine never interprets the bytes; it only compares identities for
/// equality and embeds them verbatim in the canonical signable payload.
#[derive(Clone, Copy, Debug, PartialEq, Eq, Hash)]
pub struct Pubkey {
    pub bytes: [u8; 32],
}

impl View for Pubkey {
    type V = Seq<u8>;

    open spec fn view(&self) -> Seq<u8> {
        self.bytes@
    }
}

impl Pubkey {
    /// Wrap raw identity bytes.
    pub fn new(bytes: [u8; 32]) -> (r: Pubkey)
        ensures
            r@ == bytes@,
    {
        Pubkey { bytes }
    }
}

/// Compare two identities byte for byte.
pub fn pubkey_eq(a: &Pubkey, b: &Pubkey) -> (r: bool)
    ensures
        r <==> a@ == b@,
{
    let mut i: usize = 0;
    while i < 32
        invariant
            i <= 32,
            forall|j: int| 0 <= j < i ==> a@[j] == b@[j],
        decreases 32 - i,
    {
        if a.bytes[i] != b.bytes[i] {
            return false;
        }
        i += 1;
    }
    proof {
        assert(a@ =~= b@);
    }
    true
}

/// The sequence of raw identities behind a list of keys.
pub open spec fn keys_of(keys: Seq<Pubkey>) -> Seq<Seq<u8>> {
    keys.map_values(|k: Pubkey| k@)
}

/// Whether `keys` lists an identity with raw bytes `key`.
pub fn contains_pubkey(keys: &Vec<Pubkey>, key: &Pubkey) -> (r: bool)
    ensures
        r <==> keys_of(keys@).contains(key@),
{
    let mut i: usize = 0;
    while i < keys.len()
        invariant
            i <= keys@.len(),
            forall|j: int| 0 <= j < i ==> keys_of(keys@)[j] != key@,
        decreases keys@.len() - i,
    {
        if pubkey_eq(&keys[i], key) {
            assert(keys_of(keys@)[i as int] == key@);
            return true;
        }
        i += 1;
    }
    false
}

} // verus!
