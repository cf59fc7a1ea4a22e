use vstd::prelude::*;

verus! {

use vstd::bytes::spec_u64_to_le_bytes;

use crate::engine::{collect_signers, decide, lemma_collect_err_settles};
use crate::errors::CustomError;
use crate::message::mint_message;
use crate::records::{
    attested_payload, extract_signer, header_recognized, is_signature_verification,
    offsets_consistent, RecordView,
};
use crate::registry::{ConfigView, MAX_SUPPLY};

/// Whether some record in the bundle is a recognized, well-formed proof
/// from the identity `key` attesting exactly the payload `msg`.
pub open spec fn has_matching_proof(records: Seq<RecordView>, msg: Seq<u8>, key: Seq<u8>) -> bool {
    exists|i: int|
        0 <= i < records.len() && is_signature_verification(#[trigger] records[i])
            && extract_signer(records[i].data, msg) == Ok::<Option<Seq<u8>>, CustomError>(
            Some(key),
        )
}

/// The set of trusted identities with a proof matching the payload `msg`:
/// exactly the identities that count toward quorum.
pub open spec fn matching_signers(
    records: Seq<RecordView>,
    msg: Seq<u8>,
    signers: Seq<Seq<u8>>,
) -> Set<Seq<u8>> {
    Set::new(|key: Seq<u8>| signers.contains(key) && has_matching_proof(records, msg, key))
}

/// What proof collection gathers, exactly: when no record faults, the
/// collected list holds each identity at most once, and holds an identity
/// if and only if it is trusted and some record is a well-formed proof
/// from it attesting exactly the canonical payload.
///
/// Two consequences are spelled out by the lemmas below: a proof
/// attesting any other payload contributes nothing (payload binding), and
/// repeated proofs from one identity contribute once (deduplication).
pub proof fn lemma_collect_characterizes(
    records: Seq<RecordView>,
    msg: Seq<u8>,
    signers: Seq<Seq<u8>>,
)
    requires
        collect_signers(records, msg, signers) is Ok,
    ensures
        ({
            let sigs = collect_signers(records, msg, signers)->Ok_0;
            &&& sigs.no_duplicates()
            &&& forall|key: Seq<u8>|
                #[trigger] sigs.contains(key) <==> (signers.contains(key) && has_matching_proof(
                    records,
                    msg,
                    key,
                ))
        }),
    decreases records.len(),
{
    let sigs = collect_signers(records, msg, signers)->Ok_0;
    if records.len() == 0 {
        assert(sigs =~= Seq::<Seq<u8>>::empty());
        assert(forall|key: Seq<u8>| !(#[trigger] sigs.contains(key)));
    } else {
        let prefix = records.drop_last();
        let last = records.last();
        let acc = collect_signers(prefix, msg, signers)->Ok_0;
        lemma_collect_characterizes(prefix, msg, signers);
        assert(last == records[records.len() - 1]);
        assert forall|key: Seq<u8>|
            signers.contains(key) && has_matching_proof(prefix, msg, key) implies #[trigger] acc.contains(
            key,
        ) by {
            let i = choose|i: int|
                0 <= i < prefix.len() && is_signature_verification(#[trigger] prefix[i])
                    && extract_signer(prefix[i].data, msg) == Ok::<Option<Seq<u8>>, CustomError>(
                    Some(key),
                );
            assert(records[i] == prefix[i]);
        }
        assert forall|key: Seq<u8>| #[trigger] acc.contains(key) implies has_matching_proof(
            records,
            msg,
            key,
        ) by {
            let i = choose|i: int|
                0 <= i < prefix.len() && is_signature_verification(#[trigger] prefix[i])
                    && extract_signer(prefix[i].data, msg) == Ok::<Option<Seq<u8>>, CustomError>(
                    Some(key),
                );
            assert(records[i] == prefix[i]);
            assert(is_signature_verification(records[i]));
        }
        if !is_signature_verification(last) {
            assert(sigs == acc);
            assert forall|key: Seq<u8>| has_matching_proof(records, msg, key) implies (
            has_matching_proof(prefix, msg, key)) by {
                let i = choose|i: int|
                    0 <= i < records.len() && is_signature_verification(#[trigger] records[i])
                        && extract_signer(records[i].data, msg) == Ok::<
                        Option<Seq<u8>>,
                        CustomError,
                    >(Some(key));
                assert(i < prefix.len());
                assert(prefix[i] == records[i]);
            }
        } else {
            match extract_signer(last.data, msg) {
                Err(e) => {
                    assert(false);
                },
                Ok(None) => {
                    assert(sigs == acc);
                    assert forall|key: Seq<u8>| has_matching_proof(records, msg, key) implies (
                    has_matching_proof(prefix, msg, key)) by {
                        let i = choose|i: int|
                            0 <= i < records.len() && is_signature_verification(
                                #[trigger] records[i],
                            ) && extract_signer(records[i].data, msg) == Ok::<
                                Option<Seq<u8>>,
                                CustomError,
                            >(Some(key));
                        assert(i < prefix.len());
                        assert(prefix[i] == records[i]);
                    }
                },
                Ok(Some(k0)) => {
                    assert forall|key: Seq<u8>|
                        has_matching_proof(records, msg, key) && key != k0 implies (
                    has_matching_proof(prefix, msg, key)) by {
                        let i = choose|i: int|
                            0 <= i < records.len() && is_signature_verification(
                                #[trigger] records[i],
                            ) && extract_signer(records[i].data, msg) == Ok::<
                                Option<Seq<u8>>,
                                CustomError,
                            >(Some(key));
                        if i == records.len() - 1 {
                            assert(records[i] == last);
                            assert(false);
                        } else {
                            assert(prefix[i] == records[i]);
                        }
                    }
                    assert(has_matching_proof(records, msg, k0)) by {
                        assert(is_signature_verification(records[records.len() - 1]));
                    }
                    if signers.contains(k0) && !acc.contains(k0) {
                        assert(sigs == acc.push(k0));
                        assert forall|key: Seq<u8>| #[trigger] sigs.contains(key) implies (
                        acc.contains(key) || key == k0) by {
                            let i = choose|i: int| 0 <= i < sigs.len() && sigs[i] == key;
                            if i < acc.len() {
                                assert(acc[i] == key);
                            }
                        }
                        assert forall|key: Seq<u8>| acc.contains(key) implies #[trigger] sigs.contains(
                            key,
                        ) by {
                            let i = choose|i: int| 0 <= i < acc.len() && acc[i] == key;
                            assert(sigs[i] == key);
                        }
                        assert(sigs[sigs.len() - 1] == k0);
                        assert(sigs.contains(k0));
                        assert(sigs.no_duplicates()) by {
                            assert(forall|i: int|
                                0 <= i < acc.len() ==> #[trigger] sigs[i] == acc[i]);
                            assert(forall|i: int| 0 <= i < acc.len() ==> acc.contains(#[trigger] acc[i]));
                        }
                    } else {
                        assert(sigs == acc);
                        if signers.contains(k0) {
                            assert(acc.contains(k0));
                        }
                    }
                },
            }
        }
    }
}

/// Quorum monotonicity: once the replay and supply gates pass and no
/// record faults, authorization succeeds if and only if the number of
/// distinct trusted identities with a payload-matching proof reaches the
/// quorum threshold.
pub proof fn lemma_quorum_decision(
    cfg: ConfigView,
    amount: u64,
    recipient: Seq<u8>,
    nonce: u64,
    reason: Seq<u8>,
    records: Seq<RecordView>,
)
    requires
        nonce > cfg.nonce,
        cfg.total_minted + amount <= MAX_SUPPLY,
        collect_signers(records, mint_message(amount, recipient, nonce, reason), cfg.signers)
            is Ok,
    ensures
        ({
            let m = matching_signers(
                records,
                mint_message(amount, recipient, nonce, reason),
                cfg.signers,
            );
            &&& m.finite()
            &&& (decide(cfg, amount, recipient, nonce, reason, records) is Ok <==> m.len()
                >= cfg.quorum as int)
        }),
{
    let msg = mint_message(amount, recipient, nonce, reason);
    let sigs = collect_signers(records, msg, cfg.signers)->Ok_0;
    let m = matching_signers(records, msg, cfg.signers);
    lemma_collect_characterizes(records, msg, cfg.signers);
    assert(sigs.to_set() =~= m);
    sigs.unique_seq_to_set();
}

/// Replay rejection: a nonce at or below the registry's last accepted one
/// is rejected as `InvalidNonce`, whatever else the request carries.
/// Since an authorized request advances the registry's nonce to its own,
/// a once-accepted nonce can never be accepted again.
pub proof fn lemma_replay_rejected(
    cfg: ConfigView,
    amount: u64,
    recipient: Seq<u8>,
    nonce: u64,
    reason: Seq<u8>,
    records: Seq<RecordView>,
)
    requires
        nonce <= cfg.nonce,
    ensures
        decide(cfg, amount, recipient, nonce, reason, records) == Err::<
            Seq<Seq<u8>>,
            CustomError,
        >(CustomError::InvalidNonce),
{
}

/// Replay rejection, across requests: an accepted request leaves the
/// registry's nonce at its own, and later states only raise it, so a
/// request reusing any nonce at or below an accepted one — under
/// whatever amount, recipient, reason and records — is rejected.
pub proof fn lemma_accepted_nonce_never_reaccepted(
    cfg: ConfigView,
    amount: u64,
    recipient: Seq<u8>,
    nonce: u64,
    reason: Seq<u8>,
    records: Seq<RecordView>,
    later: ConfigView,
    amount2: u64,
    recipient2: Seq<u8>,
    nonce2: u64,
    reason2: Seq<u8>,
    records2: Seq<RecordView>,
)
    requires
        decide(cfg, amount, recipient, nonce, reason, records) is Ok,
        later.nonce >= nonce,
        nonce2 <= nonce,
    ensures
        decide(later, amount2, recipient2, nonce2, reason2, records2) == Err::<
            Seq<Seq<u8>>,
            CustomError,
        >(CustomError::InvalidNonce),
{
}

/// Supply cap closure: an authorized decision always fits under the cap,
/// so a registry within the cap stays within it across any sequence of
/// accepted requests — each of which, by `mint_with_multisig`'s contract,
/// adds exactly its amount to the cumulative total.
pub proof fn lemma_supply_cap(
    cfg: ConfigView,
    amount: u64,
    recipient: Seq<u8>,
    nonce: u64,
    reason: Seq<u8>,
    records: Seq<RecordView>,
)
    requires
        decide(cfg, amount, recipient, nonce, reason, records) is Ok,
    ensures
        cfg.total_minted + amount <= MAX_SUPPLY,
{
}

/// Payload binding, at one record: a well-formed record whose attested
/// payload differs from the canonical one — in even a single byte —
/// yields `InvalidMessage`, never a signer.
pub proof fn lemma_wrong_payload_is_invalid_message(data: Seq<u8>, expected: Seq<u8>)
    requires
        header_recognized(data),
        offsets_consistent(data),
        attested_payload(data) != expected,
    ensures
        extract_signer(data, expected) == Err::<Option<Seq<u8>>, CustomError>(
            CustomError::InvalidMessage,
        ),
{
}

/// Payload binding, the converse: whenever extraction yields a signer at
/// all, the record attested exactly the canonical payload.
pub proof fn lemma_extract_binds_payload(data: Seq<u8>, expected: Seq<u8>, key: Seq<u8>)
    requires
        extract_signer(data, expected) == Ok::<Option<Seq<u8>>, CustomError>(Some(key)),
    ensures
        attested_payload(data) == expected,
{
}

/// Payload binding: a recognized record that attests a payload other than
/// the canonical one — differing in even a single byte — yields
/// `InvalidMessage` by [`extract_signer`]'s definition, and any faulting
/// record poisons the whole bundle: nothing is collected and the request
/// is rejected.
pub proof fn lemma_payload_binding(
    records: Seq<RecordView>,
    msg: Seq<u8>,
    signers: Seq<Seq<u8>>,
    i: int,
)
    requires
        0 <= i < records.len(),
        is_signature_verification(records[i]),
        extract_signer(records[i].data, msg) is Err,
    ensures
        collect_signers(records, msg, signers) is Err,
{
    if collect_signers(records.take(i), msg, signers) is Err {
        lemma_collect_err_settles(records, msg, signers, i);
    } else {
        assert(records.take(i + 1).drop_last() =~= records.take(i));
        assert(records.take(i + 1).last() == records[i]);
        assert(collect_signers(records.take(i + 1), msg, signers) is Err);
        lemma_collect_err_settles(records, msg, signers, i + 1);
    }
}

/// The canonical payload pins every request field: two requests encode to
/// the same payload only if they agree on amount, recipient, nonce and
/// reason.  With payload binding above, a proof gathered for one request
/// can therefore never count toward any other.
pub proof fn lemma_mint_message_injective(
    a1: u64,
    r1: Seq<u8>,
    n1: u64,
    s1: Seq<u8>,
    a2: u64,
    r2: Seq<u8>,
    n2: u64,
    s2: Seq<u8>,
)
    requires
        r1.len() == 32,
        r2.len() == 32,
        mint_message(a1, r1, n1, s1) == mint_message(a2, r2, n2, s2),
    ensures
        a1 == a2,
        r1 == r2,
        n1 == n2,
        s1 == s2,
{
    vstd::bytes::lemma_auto_spec_u64_to_from_le_bytes();
    let m1 = mint_message(a1, r1, n1, s1);
    let m2 = mint_message(a2, r2, n2, s2);
    assert(m1.subrange(6, 14) =~= spec_u64_to_le_bytes(a1));
    assert(m2.subrange(6, 14) =~= spec_u64_to_le_bytes(a2));
    assert(a1 == a2);
    assert(r1 =~= m1.subrange(14, 46));
    assert(r2 =~= m2.subrange(14, 46));
    assert(m1.subrange(46, 54) =~= spec_u64_to_le_bytes(n1));
    assert(m2.subrange(46, 54) =~= spec_u64_to_le_bytes(n2));
    assert(n1 == n2);
    assert(s1 =~= m1.subrange(54, m1.len() as int));
    assert(s2 =~= m2.subrange(54, m2.len() as int));
}

/// Deduplication: appending a further proof from an identity that is
/// already counted leaves the collected signers — and so the quorum
/// count — exactly as they were.
pub proof fn lemma_duplicate_counts_once(
    records: Seq<RecordView>,
    rec: RecordView,
    msg: Seq<u8>,
    signers: Seq<Seq<u8>>,
    key: Seq<u8>,
)
    requires
        collect_signers(records, msg, signers) is Ok,
        is_signature_verification(rec),
        extract_signer(rec.data, msg) == Ok::<Option<Seq<u8>>, CustomError>(Some(key)),
        collect_signers(records, msg, signers)->Ok_0.contains(key),
    ensures
        collect_signers(records.push(rec), msg, signers) == collect_signers(
            records,
            msg,
            signers,
        ),
{
    assert(records.push(rec).drop_last() =~= records);
    assert(records.push(rec).last() == rec);
}

} // verus!
