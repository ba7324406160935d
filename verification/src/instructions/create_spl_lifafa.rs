//! Creating an envelope of tokens.
use crate::errors::LifafaError;
use crate::flows::{create, creation_refusal, Terms};
use crate::identity::Identity;
use crate::states::{ClaimMode, Lifafa};
use vstd::prelude::*;

verus! {

/// The accounts of the creation of a token envelope.
pub struct CreateSplLifafa {
    /// The record the envelope is created in; vacant until then.
    pub lifafa: Lifafa,
    /// The bump of the address the record is stored under.
    pub lifafa_bump: u8,
    /// The token the pool is held in.
    pub mint: Identity,
    /// The tokens in the envelope's vault.
    pub vault_amount: u64,
    /// The creator.
    pub signer: Identity,
}

/// Why the envelope cannot be created, if it cannot: a mode number that
/// names no mode is refused first, then what [`creation_refusal`] finds of
/// the record, the vault and the terms.
pub open spec fn spl_creation_refusal(
    ctx: CreateSplLifafa,
    id: u64,
    amount: u64,
    time_limit_in_seconds: i64,
    max_claims: u64,
    owner_name: String,
    desc: String,
    claim_mode: u8,
) -> Option<LifafaError> {
    match ClaimMode::of_u8(claim_mode) {
        Err(_) => Some(LifafaError::InvalidClaimMode),
        Ok(mode) => creation_refusal(
            ctx.lifafa,
            ctx.vault_amount,
            Terms {
                id,
                amount,
                time_limit: time_limit_in_seconds,
                max_claims,
                owner_name,
                desc,
                claim_mode: mode,
            },
        ),
    }
}

/// Creates the envelope `id` for the signer at time `now`, with a pool of
/// `amount` tokens, open to `max_claims` claims for `time_limit_in_seconds`
/// seconds. `claim_mode` is the number of the distribution mode.
///
/// On success the record holds the new envelope, which remembers the mint
/// and the bump, and the vault has grown by `amount`, which the caller
/// transfers from the signer's token account. The refusals, in the order in
/// which they are looked for: `InvalidClaimMode`, `LifafaAlreadyExists`,
/// `OwnerNameTooLong`, `DescriptionTooLong`, `MaxClaimsLimitExceeded`,
/// `TransferFailed`.
pub fn create_spl_lifafa(
    ctx: &mut CreateSplLifafa,
    id: u64,
    amount: u64,
    time_limit_in_seconds: i64,
    max_claims: u64,
    owner_name: String,
    desc: String,
    claim_mode: u8,
    now: i64,
) -> (created: Result<(), LifafaError>)
    ensures
        match created {
            Ok(()) => {
                &&& spl_creation_refusal(
                    *old(ctx),
                    id,
                    amount,
                    time_limit_in_seconds,
                    max_claims,
                    owner_name,
                    desc,
                    claim_mode,
                ) is None
                &&& ClaimMode::of_u8(claim_mode) matches Ok(mode)
                &&& *final(ctx) == (CreateSplLifafa {
                    lifafa: (Terms {
                        id,
                        amount,
                        time_limit: time_limit_in_seconds,
                        max_claims,
                        owner_name,
                        desc,
                        claim_mode: mode,
                    }).opened(old(ctx).signer, old(ctx).mint, old(ctx).lifafa_bump, now),
                    vault_amount: (old(ctx).vault_amount + amount) as u64,
                    ..*old(ctx)
                })
                &&& final(ctx).lifafa.wf()
            },
            Err(e) => {
                &&& spl_creation_refusal(
                    *old(ctx),
                    id,
                    amount,
                    time_limit_in_seconds,
                    max_claims,
                    owner_name,
                    desc,
                    claim_mode,
                ) == Some(e)
                &&& *final(ctx) == *old(ctx)
            },
        },
{
    let claim_mode = ClaimMode::from_u8(claim_mode)?;
    let terms = Terms {
        id,
        amount,
        time_limit: time_limit_in_seconds,
        max_claims,
        owner_name,
        desc,
        claim_mode,
    };
    create(
        &mut ctx.lifafa,
        &mut ctx.vault_amount,
        terms,
        ctx.signer,
        ctx.mint,
        ctx.lifafa_bump,
        now,
    )
}

} // verus!
