use vstd::prelude::*;

verus! {

use vstd::utf8::encode_utf8;

use crate::errors::CustomError;
use crate::identity::{contains_pubkey, keys_of, pubkey_eq, Pubkey};
use crate::message::{create_mint_message, mint_message};
use crate::records::{
    ed25519_verifier_key, extract_signer, is_signature_verification,
    parse_and_verify_ed25519_instruction, records_of, RecordView, VerificationRecord,
};
use crate::registry::{
    accept_if_fresh, reserve, Config, ConfigView, INITIAL_MINT, MAX_SUPPLY,
};

/// The immutable notification describing a completed issuance: who
/// received how much, why, under which nonce, and the deduplicated list of
/// trusted signers that authorized it.  Emitted once per authorized
/// decision, never retried or mutated.
pub struct MintEvent {
    pub recipient: Pubkey,
    pub amount: u64,
    pub reason: String,
    pub nonce: u64,
    pub signers: Vec<Pubkey>,
}

/// What an issuance event looks like to a contract.
pub struct MintEventView {
    pub recipient: Seq<u8>,
    pub amount: u64,
    pub reason: Seq<char>,
    pub nonce: u64,
    pub signers: Seq<Seq<u8>>,
}

impl View for MintEvent {
    type V = MintEventView;

    open spec fn view(&self) -> MintEventView {
        MintEventView {
            recipient: self.recipient@,
            amount: self.amount,
            reason: self.reason@,
            nonce: self.nonce,
            signers: keys_of(self.signers@),
        }
    }
}

/// One step of proof collection: how the list `acc` of already counted
/// signers grows when the record `rec` is inspected against the canonical
/// payload `msg` and the trusted set `signers`.
///
/// Records from other producers are skipped; a malformed record or one
/// attesting another payload aborts with [`extract_signer`]'s error; an
/// identity counts only if it is trusted and not yet counted.
pub open spec fn collect_step(
    acc: Seq<Seq<u8>>,
    rec: RecordView,
    msg: Seq<u8>,
    signers: Seq<Seq<u8>>,
) -> Result<Seq<Seq<u8>>, CustomError> {
    if !is_signature_verification(rec) {
        Ok(acc)
    } else {
        match extract_signer(rec.data, msg) {
            Err(e) => Err(e),
            Ok(None) => Ok(acc),
            Ok(Some(key)) => if signers.contains(key) && !acc.contains(key) {
                Ok(acc.push(key))
            } else {
                Ok(acc)
            },
        }
    }
}

/// The deduplicated, in-order list of trusted signers with a proof
/// matching the canonical payload `msg`, over the whole record bundle —
/// or the first record's error, which distrusts the whole bundle.
pub open spec fn collect_signers(
    records: Seq<RecordView>,
    msg: Seq<u8>,
    signers: Seq<Seq<u8>>,
) -> Result<Seq<Seq<u8>>, CustomError>
    decreases records.len(),
{
    if records.len() == 0 {
        Ok(Seq::empty())
    } else {
        match collect_signers(records.drop_last(), msg, signers) {
            Err(e) => Err(e),
            Ok(acc) => collect_step(acc, records.last(), msg, signers),
        }
    }
}

/// The whole quorum decision as one mathematical function, gates in their
/// exact order: replay guard, overflow, supply cap, proof collection,
/// quorum count.  `Ok` carries the deduplicated authorizing signers.
pub open spec fn decide(
    cfg: ConfigView,
    amount: u64,
    recipient: Seq<u8>,
    nonce: u64,
    reason: Seq<u8>,
    records: Seq<RecordView>,
) -> Result<Seq<Seq<u8>>, CustomError> {
    if nonce <= cfg.nonce {
        Err(CustomError::InvalidNonce)
    } else if cfg.total_minted + amount > u64::MAX {
        Err(CustomError::Overflow)
    } else if cfg.total_minted + amount > MAX_SUPPLY {
        Err(CustomError::ExceedsMaxSupply)
    } else {
        match collect_signers(records, mint_message(amount, recipient, nonce, reason), cfg.signers) {
            Err(e) => Err(e),
            Ok(sigs) => if sigs.len() < cfg.quorum as int {
                Err(CustomError::QuorumNotReached)
            } else {
                Ok(sigs)
            },
        }
    }
}

/// An error on any record settles the whole collection: whatever records
/// follow the erring prefix, the result is that prefix's error.
pub proof fn lemma_collect_err_settles(
    records: Seq<RecordView>,
    msg: Seq<u8>,
    signers: Seq<Seq<u8>>,
    j: int,
)
    requires
        0 <= j <= records.len(),
        collect_signers(records.take(j), msg, signers) is Err,
    ensures
        collect_signers(records, msg, signers) == collect_signers(records.take(j), msg, signers),
    decreases records.len() - j,
{
    if j == records.len() {
        assert(records.take(j) =~= records);
    } else {
        assert(records.take(j + 1).drop_last() =~= records.take(j));
        assert(records.take(j + 1).last() == records[j]);
        lemma_collect_err_settles(records, msg, signers, j + 1);
    }
}

/// Decide one authorization request against the registry.
///
/// Gates run in order — replay guard, supply reservation, proof
/// extraction over the record bundle, quorum count — and none of them
/// mutates anything.  Only a fully authorized request commits the reserved
/// total and the new nonce and returns the issuance event; on any error
/// the registry is exactly what it was.  The returned event tells the
/// caller to perform the actual transfer of `amount` to `recipient`.
#[verifier::loop_isolation(false)]
pub fn mint_with_multisig(
    config: &mut Config,
    amount: u64,
    recipient: Pubkey,
    nonce: u64,
    reason: String,
    records: &Vec<VerificationRecord>,
) -> (r: Result<MintEvent, CustomError>)
    requires
        old(config).wf(),
    ensures
        final(config).wf(),
        match r {
            Ok(ev) => {
                &&& decide(
                    old(config)@,
                    amount,
                    recipient@,
                    nonce,
                    encode_utf8(reason@),
                    records_of(records@),
                ) == Ok::<Seq<Seq<u8>>, CustomError>(ev@.signers)
                &&& ev@.recipient == recipient@
                &&& ev@.amount == amount
                &&& ev@.nonce == nonce
                &&& ev@.reason == reason@
                &&& final(config)@ == (ConfigView {
                    total_minted: (old(config).total_minted + amount) as u64,
                    nonce,
                    ..old(config)@
                })
            },
            Err(e) => {
                &&& decide(
                    old(config)@,
                    amount,
                    recipient@,
                    nonce,
                    encode_utf8(reason@),
                    records_of(records@),
                ) == Err::<Seq<Seq<u8>>, CustomError>(e)
                &&& *final(config) == *old(config)
            },
        },
{
    // Replay guard: reject stale or duplicate nonces first.
    match accept_if_fresh(config, nonce) {
        Err(e) => {
            return Err(e);
        },
        Ok(_) => {},
    }
    // Supply ledger: reserve the prospective total, commit later.
    let new_total = match reserve(config, amount) {
        Err(e) => {
            return Err(e);
        },
        Ok(t) => t,
    };
    // The canonical payload every genuine co-signer must have signed.
    let message = create_mint_message(amount, &recipient, nonce, reason.as_str());
    let verifier = ed25519_verifier_key();
    let ghost recs = records_of(records@);
    let ghost signer_keys = old(config)@.signers;
    // Proof extraction and cross-checking, one record at a time.
    let mut verified: Vec<Pubkey> = Vec::new();
    let mut i: usize = 0;
    proof {
        assert(recs.take(0) =~= Seq::<RecordView>::empty());
        assert(keys_of(verified@) =~= Seq::<Seq<u8>>::empty());
    }
    while i < records.len()
        invariant
            i <= records@.len(),
            collect_signers(recs.take(i as int), message@, signer_keys) == Ok::<
                Seq<Seq<u8>>,
                CustomError,
            >(keys_of(verified@)),
        decreases records@.len() - i,
    {
        let rec = &records[i];
        proof {
            assert(recs.take(i + 1).drop_last() =~= recs.take(i as int));
            assert(recs.take(i + 1).last() == rec@);
        }
        if pubkey_eq(&rec.producer, &verifier) {
            match parse_and_verify_ed25519_instruction(&rec.data, &message) {
                Err(e) => {
                    proof {
                        lemma_collect_err_settles(recs, message@, signer_keys, i + 1);
                    }
                    return Err(e);
                },
                Ok(None) => {},
                Ok(Some(key)) => {
                    // A proof counts once: only trusted identities, and
                    // only if not already counted.
                    if contains_pubkey(&config.oracle_signers, &key) && !contains_pubkey(
                        &verified,
                        &key,
                    ) {
                        let ghost before = keys_of(verified@);
                        verified.push(key);
                        proof {
                            assert(keys_of(verified@) =~= before.push(key@));
                        }
                    }
                },
            }
        }
        i += 1;
    }
    proof {
        assert(recs.take(records@.len() as int) =~= recs);
    }
    // Quorum decision: count the distinct trusted signers that attested
    // this very payload.
    if verified.len() < config.quorum as usize {
        return Err(CustomError::QuorumNotReached);
    }
    // Every gate passed: commit the reserved total and the nonce, and
    // report the issuance.
    config.total_minted = new_total;
    config.nonce = nonce;
    Ok(MintEvent { recipient, amount, reason, nonce, signers: verified })
}

/// The one-time treasury seed: issue [`INITIAL_MINT`] once, before any
/// other issuance.  Callable only by the administrator.  The returned
/// `Ok` tells the caller to transfer [`INITIAL_MINT`] to the treasury.
pub fn mint_initial_supply(config: &mut Config, caller: &Pubkey) -> (r: Result<(), CustomError>)
    requires
        old(config).wf(),
    ensures
        final(config).wf(),
        r is Ok <==> (caller@ == old(config).admin@ && old(config).total_minted == 0),
        r is Ok ==> final(config)@ == (ConfigView { total_minted: INITIAL_MINT, ..old(config)@ }),
        r is Err ==> *final(config) == *old(config),
        match r {
            Ok(_) => true,
            Err(e) => e == (if caller@ != old(config).admin@ {
                CustomError::Unauthorized
            } else {
                CustomError::InitialMintAlreadyDone
            }),
        },
{
    if !pubkey_eq(caller, &config.admin) {
        return Err(CustomError::Unauthorized);
    }
    if config.total_minted != 0 {
        return Err(CustomError::InitialMintAlreadyDone);
    }
    config.total_minted = INITIAL_MINT;
    Ok(())
}

/// The pool-authorized side mint path: issuance under a single external
/// authority, with no quorum and no nonce.  The host alone gates who may
/// call it; the supply-cap and overflow checks are exactly those of the
/// quorum path.  `Ok` tells the caller to transfer `amount`.
pub fn ccip_mint(config: &mut Config, amount: u64) -> (r: Result<(), CustomError>)
    requires
        old(config).wf(),
    ensures
        final(config).wf(),
        r is Ok <==> old(config).total_minted + amount <= MAX_SUPPLY,
        r is Ok ==> final(config)@ == (ConfigView {
            total_minted: (old(config).total_minted + amount) as u64,
            ..old(config)@
        }),
        r is Err ==> *final(config) == *old(config),
        match r {
            Ok(_) => true,
            Err(e) => e == (if old(config).total_minted + amount > u64::MAX {
                CustomError::Overflow
            } else {
                CustomError::ExceedsMaxSupply
            }),
        },
{
    let new_total = match reserve(config, amount) {
        Err(e) => {
            return Err(e);
        },
        Ok(t) => t,
    };
    config.total_minted = new_total;
    Ok(())
}

} // verus!
