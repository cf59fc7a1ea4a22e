use vstd::prelude::*;

verus! {

broadcast use vstd::array::group_array_axioms;

use vstd::bytes::{spec_u16_from_le_bytes, u16_from_le_bytes};
use vstd::slice::slice_subrange;

use crate::errors::CustomError;
use crate::identity::Pubkey;

/// Externally supplied evidence that a signature was checked: the identity
/// of the component that produced the evidence, and the raw bytes of the
/// record it produced.
///
/// The execution environment guarantees that, for a record in the
/// recognized signature-verification format, the signature over the stated
/// payload by the stated key was already cryptographically validated.  That
/// guarantee says nothing about *which* payload and *which* key the record
/// states — extracting and cross-checking those is this module's job.
pub struct VerificationRecord {
    /// The identity of the producer.  Only records from the recognized
    /// signature verifier ([`ed25519_verifier_id`]) are inspected; all
    /// others are skipped.
    pub producer: Pubkey,
    /// The record's raw bytes: a 16-byte header (count of signatures,
    /// little-endian offsets and lengths) followed by public key,
    /// signature and payload at the stated offsets.
    pub data: Vec<u8>,
}

/// What a verification record looks like to a contract.
pub struct RecordView {
    pub producer: Seq<u8>,
    pub data: Seq<u8>,
}

impl View for VerificationRecord {
    type V = RecordView;

    open spec fn view(&self) -> RecordView {
        RecordView { producer: self.producer@, data: self.data@ }
    }
}

/// The sequence of record views behind a list of records.
pub open spec fn records_of(records: Seq<VerificationRecord>) -> Seq<RecordView> {
    records.map_values(|r: VerificationRecord| r@)
}

/// Bytes of a record's header: count of signatures, then fixed-width
/// little-endian offsets and lengths.
pub const RECORD_HEADER_SIZE: usize = 16;

/// The identity of the recognized signature verifier (the ed25519
/// verification program), as raw bytes.
pub open spec fn ed25519_verifier_id() -> Seq<u8> {
    seq![
        3u8, 125u8, 70u8, 214u8, 124u8, 147u8, 251u8, 190u8, 18u8, 249u8, 66u8, 143u8, 131u8,
        141u8, 64u8, 255u8, 5u8, 112u8, 116u8, 73u8, 39u8, 244u8, 138u8, 100u8, 252u8, 202u8,
        112u8, 68u8, 128u8, 0u8, 0u8, 0u8,
    ]
}

/// The identity of the recognized signature verifier, as a key.
pub fn ed25519_verifier_key() -> (r: Pubkey)
    ensures
        r@ == ed25519_verifier_id(),
{
    let bytes: [u8; 32] = [
        3, 125, 70, 214, 124, 147, 251, 190, 18, 249, 66, 143, 131, 141, 64, 255, 5, 112, 116, 73,
        39, 244, 138, 100, 252, 202, 112, 68, 128, 0, 0, 0,
    ];
    proof {
        assert(bytes@ =~= ed25519_verifier_id());
    }
    Pubkey { bytes }
}

/// Whether a record comes from the recognized signature verifier at all.
/// Records from any other producer are skipped, not errors.
pub open spec fn is_signature_verification(rec: RecordView) -> bool {
    rec.producer == ed25519_verifier_id()
}

/// Whether the record opens with the one header layout this engine
/// recognizes: room for a header, and a signature count of exactly one.
pub open spec fn header_recognized(data: Seq<u8>) -> bool {
    data.len() >= RECORD_HEADER_SIZE && data[0] == 1
}

/// The stated offset of the public key, a little-endian `u16` in the
/// header.
pub open spec fn record_pk_off(data: Seq<u8>) -> int {
    spec_u16_from_le_bytes(data.subrange(6, 8)) as int
}

/// The stated offset of the attested payload.
pub open spec fn record_msg_off(data: Seq<u8>) -> int {
    spec_u16_from_le_bytes(data.subrange(10, 12)) as int
}

/// The stated length of the attested payload.
pub open spec fn record_msg_len(data: Seq<u8>) -> int {
    spec_u16_from_le_bytes(data.subrange(12, 14)) as int
}

/// Whether the stated offsets and lengths are consistent with the
/// record's size: both regions outside the header and fully inside the
/// record.
pub open spec fn offsets_consistent(data: Seq<u8>) -> bool {
    &&& record_pk_off(data) >= RECORD_HEADER_SIZE
    &&& record_msg_off(data) >= RECORD_HEADER_SIZE
    &&& record_pk_off(data) + 32 <= data.len()
    &&& record_msg_off(data) + record_msg_len(data) <= data.len()
}

/// The payload a well-formed record claims was signed.
pub open spec fn attested_payload(data: Seq<u8>) -> Seq<u8> {
    data.subrange(record_msg_off(data), record_msg_off(data) + record_msg_len(data))
}

/// The identity a well-formed record claims signed the payload.
pub open spec fn attested_signer(data: Seq<u8>) -> Seq<u8> {
    data.subrange(record_pk_off(data), record_pk_off(data) + 32)
}

/// What proof extraction yields on one record, given the canonical payload
/// `expected` of the current request:
///
/// * `Ok(None)` — the record is not in the single-signature layout this
///   engine recognizes (too short for a header, or a signature count other
///   than one); it is ignored.
/// * `Err(InvalidSignature)` — the header's offsets or lengths are
///   inconsistent with the record's size; the record is malformed and the
///   whole bundle is distrusted.
/// * `Err(InvalidMessage)` — the record is well formed but attests a
///   payload other than `expected`, byte for byte.
/// * `Ok(Some(key))` — the record attests exactly `expected`, signed by
///   the identity `key`.
pub open spec fn extract_signer(data: Seq<u8>, expected: Seq<u8>) -> Result<
    Option<Seq<u8>>,
    CustomError,
> {
    if !header_recognized(data) {
        Ok(None)
    } else if !offsets_consistent(data) {
        Err(CustomError::InvalidSignature)
    } else if attested_payload(data) != expected {
        Err(CustomError::InvalidMessage)
    } else {
        Ok(Some(attested_signer(data)))
    }
}

/// The raw identity behind a parse result, for stating contracts.
pub open spec fn extracted_of(r: Result<Option<Pubkey>, CustomError>) -> Result<
    Option<Seq<u8>>,
    CustomError,
> {
    match r {
        Ok(Some(key)) => Ok(Some(key@)),
        Ok(None) => Ok(None),
        Err(e) => Err(e),
    }
}

/// Parse one verification record and extract the attested signer identity,
/// provided the record attests exactly `expected_message`.
///
/// This is [`extract_signer`] run on real bytes: unrecognized layouts are
/// skipped (`Ok(None)`), inconsistent offsets are `InvalidSignature`, a
/// well-formed record attesting any other payload is `InvalidMessage`.
#[verifier::loop_isolation(false)]
pub fn parse_and_verify_ed25519_instruction(
    data: &Vec<u8>,
    expected_message: &Vec<u8>,
) -> (r: Result<Option<Pubkey>, CustomError>)
    ensures
        extracted_of(r) == extract_signer(data@, expected_message@),
{
    if data.len() < RECORD_HEADER_SIZE {
        return Ok(None);
    }
    let num_signatures = data[0];
    if num_signatures != 1 {
        // Only single-signature records are recognized.
        return Ok(None);
    }
    // Offsets are u16 little-endian values at fixed header positions.
    let pk_off = u16_from_le_bytes(slice_subrange(data.as_slice(), 6, 8)) as usize;
    let msg_off = u16_from_le_bytes(slice_subrange(data.as_slice(), 10, 12)) as usize;
    let msg_len = u16_from_le_bytes(slice_subrange(data.as_slice(), 12, 14)) as usize;
    if pk_off < RECORD_HEADER_SIZE || msg_off < RECORD_HEADER_SIZE {
        return Err(CustomError::InvalidSignature);
    }
    if pk_off + 32 > data.len() || msg_off + msg_len > data.len() {
        return Err(CustomError::InvalidSignature);
    }
    // The attested payload must equal the canonical payload byte for byte.
    if msg_len != expected_message.len() {
        proof {
            assert(data@.subrange(msg_off as int, msg_off + msg_len) != expected_message@);
        }
        return Err(CustomError::InvalidMessage);
    }
    let mut j: usize = 0;
    while j < msg_len
        invariant
            j <= msg_len,
            msg_off + msg_len <= data@.len(),
            msg_len == expected_message@.len(),
            forall|t: int| 0 <= t < j ==> data@[msg_off + t] == expected_message@[t],
        decreases msg_len - j,
    {
        if data[msg_off + j] != expected_message[j] {
            proof {
                assert(data@.subrange(msg_off as int, msg_off + msg_len)[j as int]
                    != expected_message@[j as int]);
            }
            return Err(CustomError::InvalidMessage);
        }
        j += 1;
    }
    proof {
        assert(data@.subrange(msg_off as int, msg_off + msg_len) =~= expected_message@);
    }
    // Copy out the attested signer identity.
    let mut key_bytes: [u8; 32] = [0; 32];
    let mut t: usize = 0;
    while t < 32
        invariant
            t <= 32,
            pk_off + 32 <= data@.len(),
            forall|q: int| 0 <= q < t ==> key_bytes@[q] == data@[pk_off + q],
        decreases 32 - t,
    {
        key_bytes[t] = data[pk_off + t];
        t += 1;
    }
    proof {
        assert(key_bytes@ =~= data@.subrange(pk_off as int, pk_off + 32));
    }
    Ok(Some(Pubkey { bytes: key_bytes }))
}

} // verus!
