//! A quorum-gated minting authorization engine.
//!
//! The engine decides whether a privileged "create value" action — minting
//! new units of a fungible asset — may proceed.  The decision rests on four
//! gates, checked in order against a mutable [`Config`] record:
//!
//! 1. a replay guard: the client-supplied nonce must be strictly greater
//!    than the last accepted one;
//! 2. a supply ledger: cumulative issuance may never exceed
//!    [`MAX_SUPPLY`], with explicit overflow detection;
//! 3. proof extraction: each accompanying verification record is parsed and
//!    must attest the canonical signable payload of this very request,
//!    byte for byte;
//! 4. a quorum decision: the distinct trusted signers among the extracted
//!    identities must reach the registry's quorum threshold.
//!
//! No gate mutates state; only a fully authorized request commits the new
//! nonce and supply total, so a failed request leaves the registry exactly
//! as it was.  The actual transfer of value and all host plumbing (account
//! loading, signature verification, event delivery) belong to the caller;
//! the engine consumes and produces plain values only.

mod engine;
mod errors;
mod identity;
mod laws;
mod message;
mod records;
mod registry;

pub use engine::{
    ccip_mint, collect_signers, collect_step, decide, lemma_collect_err_settles,
    mint_initial_supply, mint_with_multisig, MintEvent, MintEventView,
};
pub use errors::CustomError;
pub use identity::{contains_pubkey, keys_of, pubkey_eq, Pubkey};
pub use laws::{
    has_matching_proof, lemma_accepted_nonce_never_reaccepted, lemma_collect_characterizes,
    lemma_duplicate_counts_once, lemma_extract_binds_payload, lemma_mint_message_injective,
    lemma_payload_binding, lemma_quorum_decision, lemma_replay_rejected, lemma_supply_cap,
    lemma_wrong_payload_is_invalid_message, matching_signers,
};
pub use message::{create_mint_message, mint_message, protocol_tag};
pub use records::{
    attested_payload, attested_signer, ed25519_verifier_id, ed25519_verifier_key, extract_signer,
    extracted_of, header_recognized, is_signature_verification, offsets_consistent,
    parse_and_verify_ed25519_instruction, record_msg_len, record_msg_off, record_pk_off,
    records_of, RecordView, VerificationRecord, RECORD_HEADER_SIZE,
};
pub use registry::{
    accept_if_fresh, initialize, reserve, update_admin, update_oracle_signers, Config, ConfigView,
    INITIAL_MINT, MAX_SIGNERS, MAX_SUPPLY,
};
