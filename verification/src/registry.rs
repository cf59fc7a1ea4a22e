use vstd::prelude::*;

verus! {

use crate::errors::CustomError;
use crate::identity::{keys_of, pubkey_eq, Pubkey};

/// Hard cap on cumulative issuance: five billion whole tokens at nine
/// decimal places.  No mint path may push the cumulative total past it.
pub const MAX_SUPPLY: u64 = 5_000_000_000 * 1_000_000_000;

/// The one-time treasury seed: four billion whole tokens at nine decimal
/// places.
pub const INITIAL_MINT: u64 = 4_000_000_000 * 1_000_000_000;

/// The most signer identities a registry can hold.
pub const MAX_SIGNERS: usize = 10;

/// The registry: the single mutable record every decision runs against.
///
/// It holds the administrator identity, the asset identity (immutable once
/// set), the trusted signer set with its quorum threshold, the cumulative
/// issuance counter, and the last accepted nonce.  It is created once by
/// [`initialize`] and mutated only by the administrative operations and by
/// an authorized mint decision.
pub struct Config {
    /// The administrator: may replace the signer set, hand the registry to
    /// a successor, and trigger the one-time initial issuance.
    pub admin: Pubkey,
    /// The asset being issued.  The engine never changes it.
    pub mint: Pubkey,
    /// Minimum count of distinct trusted signers whose proofs must match a
    /// request for it to be authorized.
    pub quorum: u8,
    /// Cumulative issuance so far, never above [`MAX_SUPPLY`].
    pub total_minted: u64,
    /// The trusted signer identities.  Duplicates are tolerated (each
    /// distinct identity still counts once toward quorum), at most
    /// [`MAX_SIGNERS`] entries.
    pub oracle_signers: Vec<Pubkey>,
    /// The last accepted nonce; requests must come with a strictly greater
    /// one.
    pub nonce: u64,
}

/// What a registry looks like to a contract: every field as plain
/// mathematical values.
pub struct ConfigView {
    pub admin: Seq<u8>,
    pub mint: Seq<u8>,
    pub quorum: u8,
    pub total_minted: u64,
    pub signers: Seq<Seq<u8>>,
    pub nonce: u64,
}

impl View for Config {
    type V = ConfigView;

    open spec fn view(&self) -> ConfigView {
        ConfigView {
            admin: self.admin@,
            mint: self.mint@,
            quorum: self.quorum,
            total_minted: self.total_minted,
            signers: keys_of(self.oracle_signers@),
            nonce: self.nonce,
        }
    }
}

impl ConfigView {
    /// Well-formedness: a reachable quorum over a bounded signer set, and
    /// cumulative issuance within the cap.
    pub open spec fn wf(self) -> bool {
        &&& 0 < self.quorum as int
        &&& self.quorum as int <= self.signers.len()
        &&& self.signers.len() <= MAX_SIGNERS
        &&& self.total_minted <= MAX_SUPPLY
    }
}

impl Config {
    /// Well-formedness of the record, as established by [`initialize`] and
    /// preserved by every operation.
    pub open spec fn wf(&self) -> bool {
        self@.wf()
    }

    /// Decide well-formedness at run time, for callers outside the
    /// verified world that must check it before asking for a decision.
    pub fn is_well_formed(&self) -> (r: bool)
        ensures
            r == self.wf(),
    {
        0 < self.quorum && self.quorum as usize <= self.oracle_signers.len()
            && self.oracle_signers.len() <= MAX_SIGNERS && self.total_minted <= MAX_SUPPLY
    }
}

/// Create the registry.
///
/// Fails with `InvalidQuorum` if the quorum is zero or larger than the
/// signer set, with `TooManySigners` if the set is over [`MAX_SIGNERS`].
/// On success the cumulative total and the last nonce start at zero.
pub fn initialize(admin: Pubkey, mint: Pubkey, quorum: u8, oracle_signers: Vec<Pubkey>) -> (r:
    Result<Config, CustomError>)
    ensures
        r is Err <==> (quorum == 0 || quorum as int > oracle_signers@.len()
            || oracle_signers@.len() > MAX_SIGNERS),
        match r {
            Ok(c) => {
                &&& c@ == (ConfigView {
                    admin: admin@,
                    mint: mint@,
                    quorum,
                    total_minted: 0,
                    signers: keys_of(oracle_signers@),
                    nonce: 0,
                })
                &&& c.wf()
            },
            Err(e) => e == (if quorum == 0 || quorum as int > oracle_signers@.len() {
                CustomError::InvalidQuorum
            } else {
                CustomError::TooManySigners
            }),
        },
{
    if quorum == 0 || quorum as usize > oracle_signers.len() {
        return Err(CustomError::InvalidQuorum);
    }
    if oracle_signers.len() > MAX_SIGNERS {
        return Err(CustomError::TooManySigners);
    }
    Ok(Config { admin, mint, quorum, total_minted: 0, oracle_signers, nonce: 0 })
}

/// The replay guard: admit `nonce` only if it is strictly greater than the
/// last accepted one.  Gaps are permitted; equality is not.
///
/// The guard itself mutates nothing — the decision engine persists the new
/// nonce only after every other gate has passed.
pub fn accept_if_fresh(config: &Config, nonce: u64) -> (r: Result<(), CustomError>)
    ensures
        r is Ok <==> nonce > config.nonce,
        r is Err ==> r == Err::<(), CustomError>(CustomError::InvalidNonce),
{
    if nonce > config.nonce {
        Ok(())
    } else {
        Err(CustomError::InvalidNonce)
    }
}

/// The supply ledger: compute the prospective cumulative total after
/// issuing `amount`, without committing it.
///
/// Fails with `Overflow` if the sum does not fit a `u64`, and with
/// `ExceedsMaxSupply` if it fits but passes [`MAX_SUPPLY`].
pub fn reserve(config: &Config, amount: u64) -> (r: Result<u64, CustomError>)
    ensures
        r is Ok <==> config.total_minted + amount <= MAX_SUPPLY,
        match r {
            Ok(t) => t == config.total_minted + amount,
            Err(e) => e == (if config.total_minted + amount > u64::MAX {
                CustomError::Overflow
            } else {
                CustomError::ExceedsMaxSupply
            }),
        },
{
    match config.total_minted.checked_add(amount) {
        None => Err(CustomError::Overflow),
        Some(new_total) => {
            if new_total > MAX_SUPPLY {
                Err(CustomError::ExceedsMaxSupply)
            } else {
                Ok(new_total)
            }
        },
    }
}

/// Replace the whole signer set and quorum threshold at once; there is no
/// incremental add or remove.  Callable only by the administrator; the
/// validation is the same as at [`initialize`].
pub fn update_oracle_signers(
    config: &mut Config,
    caller: &Pubkey,
    new_signers: Vec<Pubkey>,
    new_quorum: u8,
) -> (r: Result<(), CustomError>)
    requires
        old(config).wf(),
    ensures
        final(config).wf(),
        r is Ok <==> (caller@ == old(config).admin@ && new_quorum > 0 && new_quorum as int
            <= new_signers@.len() && new_signers@.len() <= MAX_SIGNERS),
        r is Ok ==> final(config)@ == (ConfigView {
            quorum: new_quorum,
            signers: keys_of(new_signers@),
            ..old(config)@
        }),
        r is Err ==> *final(config) == *old(config),
        match r {
            Ok(_) => true,
            Err(e) => e == (if caller@ != old(config).admin@ {
                CustomError::Unauthorized
            } else if new_quorum == 0 || new_quorum as int > new_signers@.len() {
                CustomError::InvalidQuorum
            } else {
                CustomError::TooManySigners
            }),
        },
{
    if !pubkey_eq(caller, &config.admin) {
        return Err(CustomError::Unauthorized);
    }
    if new_quorum == 0 || new_quorum as usize > new_signers.len() {
        return Err(CustomError::InvalidQuorum);
    }
    if new_signers.len() > MAX_SIGNERS {
        return Err(CustomError::TooManySigners);
    }
    config.oracle_signers = new_signers;
    config.quorum = new_quorum;
    Ok(())
}

/// Hand the registry to a successor administrator.  Callable only by the
/// current administrator, and otherwise unconditional.
pub fn update_admin(config: &mut Config, caller: &Pubkey, new_admin: Pubkey) -> (r: Result<
    (),
    CustomError,
>)
    requires
        old(config).wf(),
    ensures
        final(config).wf(),
        r is Ok <==> caller@ == old(config).admin@,
        r is Ok ==> final(config)@ == (ConfigView { admin: new_admin@, ..old(config)@ }),
        r is Err ==> *final(config) == *old(config) && r == Err::<(), CustomError>(
            CustomError::Unauthorized,
        ),
{
    if !pubkey_eq(caller, &config.admin) {
        return Err(CustomError::Unauthorized);
    }
    config.admin = new_admin;
    Ok(())
}

} // verus!
