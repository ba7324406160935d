//! Escrowed gift envelopes ("lifafa"): a creator locks a pool of value into an
//! escrow record, distinct claimants each withdraw one share of it until a
//! time window closes or a claim ceiling is reached, and the creator sweeps
//! whatever is left when deleting the record.
//!
//! The crate decides; it moves no value itself. Every operation takes the
//! records and the escrow balance as plain values, changes them as the
//! operation does, and returns the amount that the caller has to move
//! between the escrow and the creator or claimant. An operation that fails
//! changes nothing.
//!
//! - [`helpers`] and [`digest`]: the mixing function and the seed that a
//!   slot number yields.
//! - [`distribution`]: the size of a share, in `Random` and in `Equal` mode.
//! - [`guard`]: the checks made before anything changes.
//! - [`flows`]: the transitions of one envelope: create, claim, delete.
//! - [`instructions`]: the same transitions on the accounts of an envelope
//!   of native currency and of an envelope of tokens.
//! - [`registry`]: a store of envelopes and claim records, keyed by
//!   identifier and claimant.
//! - [`laws`]: what holds of every envelope, proved.
//!
//! Every executable function is verified against its contract. One call
//! leaves the crate unverified: the SHA-256 digest in [`digest`].
use vstd::prelude::*;

pub mod digest;
pub mod distribution;
pub mod errors;
pub mod flows;
pub mod guard;
pub mod helpers;
pub mod identity;
pub mod instructions;
pub mod laws;
pub mod registry;
pub mod states;

pub use errors::LifafaError;
pub use flows::Terms;
pub use guard::Phase;
pub use helpers::xor_shift;
pub use identity::Identity;
pub use instructions::{
    claim_sol_lifafa, claim_spl_lifafa, create_sol_lifafa, create_spl_lifafa, delete_sol_lifafa,
    delete_spl_lifafa, ClaimSolLifafa, ClaimSplLifafa, CreateSolLifafa, CreateSplLifafa,
    DeleteSolLifafa, DeleteSplLifafa,
};
pub use registry::{ClaimRecord, Envelope, Registry};
pub use states::{ClaimMode, Lifafa, UserClaim};

verus! {

/// The most claims an envelope may be created for.
pub const MAX_CLAIMS_ALLOWED: u16 = 1000;

/// The most bytes an owner's display name may take.
pub const MAX_OWNER_NAME: u16 = 32;

/// The most bytes a description may take.
pub const MAX_DESC: u16 = 50;

} // verus!
