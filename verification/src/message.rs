use vstd::prelude::*;

verus! {

broadcast use vstd::array::group_array_axioms;

use vstd::bytes::{spec_u64_to_le_bytes, u64_to_le_bytes};
use vstd::slice::slice_to_vec;
use vstd::utf8::encode_utf8;

use crate::identity::Pubkey;

/// The fixed six-byte protocol marker that opens every canonical payload,
/// the ASCII bytes of `SDMINT`.
pub open spec fn protocol_tag() -> Seq<u8> {
    seq![83u8, 68u8, 77u8, 73u8, 78u8, 84u8]
}

/// The canonical signable payload of a request: the exact byte string that
/// every genuine co-signer must have signed.
///
/// Layout: `tag (6 bytes) ‖ amount (8 bytes, little-endian) ‖ recipient
/// (32-byte identity) ‖ nonce (8 bytes, little-endian) ‖ reason (UTF-8
/// bytes, unbounded)`.
pub open spec fn mint_message(
    amount: u64,
    recipient: Seq<u8>,
    nonce: u64,
    reason: Seq<u8>,
) -> Seq<u8> {
    protocol_tag() + spec_u64_to_le_bytes(amount) + recipient + spec_u64_to_le_bytes(nonce)
        + reason
}

/// Build the canonical signable payload for one request.
pub fn create_mint_message(amount: u64, recipient: &Pubkey, nonce: u64, reason: &str) -> (r: Vec<
    u8,
>)
    ensures
        r@ == mint_message(amount, recipient@, nonce, encode_utf8(reason@)),
{
    let mut m: Vec<u8> = Vec::new();
    // The protocol marker, b"SDMINT".
    m.push(83);
    m.push(68);
    m.push(77);
    m.push(73);
    m.push(78);
    m.push(84);
    proof {
        assert(m@ =~= protocol_tag());
    }
    let mut amount_bytes = u64_to_le_bytes(amount);
    m.append(&mut amount_bytes);
    let mut i: usize = 0;
    while i < 32
        invariant
            i <= 32,
            m@ == protocol_tag() + spec_u64_to_le_bytes(amount) + recipient@.take(i as int),
        decreases 32 - i,
    {
        m.push(recipient.bytes[i]);
        proof {
            assert(recipient@.take(i + 1) =~= recipient@.take(i as int).push(recipient@[i as int]));
            assert(m@ =~= protocol_tag() + spec_u64_to_le_bytes(amount) + recipient@.take(i + 1));
        }
        i += 1;
    }
    let mut nonce_bytes = u64_to_le_bytes(nonce);
    m.append(&mut nonce_bytes);
    let mut reason_bytes = slice_to_vec(reason.as_bytes());
    m.append(&mut reason_bytes);
    proof {
        assert(recipient@.take(32) =~= recipient@);
        assert(m@ =~= mint_message(amount, recipient@, nonce, encode_utf8(reason@)));
    }
    m
}

} // verus!
