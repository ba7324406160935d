//! Creating an envelope of native currency.
use crate::errors::LifafaError;
use crate::flows::{create, creation_refusal, Terms};
use crate::identity::Identity;
use crate::states::{ClaimMode, Lifafa};
use vstd::prelude::*;

verus! {

/// The accounts of the creation of a native-currency envelope.
pub struct CreateSolLifafa {
    /// The record the envelope is created in; vacant until then.
    pub lifafa: Lifafa,
    /// What the record's account holds: before the deposit, the rent that
    /// keeps the record alive.
    pub lifafa_lamports: u64,
    /// The creator.
    pub signer: Identity,
}

/// Creates the envelope `id` for the signer at time `now`, with a pool of
/// `amount`, open to `max_claims` claims for `time_limit_in_seconds` seconds.
///
/// On success the record holds the new envelope and its account has grown by
/// `amount`, which the caller takes from the signer. The refusals, in the
/// order in which they are looked for: `LifafaAlreadyExists`,
/// `OwnerNameTooLong`, `DescriptionTooLong`, `MaxClaimsLimitExceeded`,
/// `TransferFailed`.
pub fn create_sol_lifafa(
    ctx: &mut CreateSolLifafa,
    id: u64,
    amount: u64,
    time_limit_in_seconds: i64,
    max_claims: u64,
    owner_name: String,
    desc: String,
    claim_mode: ClaimMode,
    now: i64,
) -> (created: Result<(), LifafaError>)
    ensures
        ({
            let terms = Terms {
                id,
                amount,
                time_limit: time_limit_in_seconds,
                max_claims,
                owner_name,
                desc,
                claim_mode,
            };
            match created {
                Ok(()) => {
                    &&& creation_refusal(old(ctx).lifafa, old(ctx).lifafa_lamports, terms) is None
                    &&& *final(ctx) == (CreateSolLifafa {
                        lifafa: terms.opened(
                            old(ctx).signer,
                            old(ctx).lifafa.mint_of_token_being_sent,
                            old(ctx).lifafa.bump,
                            now,
                        ),
                        lifafa_lamports: (old(ctx).lifafa_lamports + amount) as u64,
                        signer: old(ctx).signer,
                    })
                    &&& final(ctx).lifafa.wf()
                },
                Err(e) => {
                    &&& creation_refusal(old(ctx).lifafa, old(ctx).lifafa_lamports, terms)
                        == Some(e)
                    &&& *final(ctx) == *old(ctx)
                },
            }
        }),
{
    let terms = Terms {
        id,
        amount,
        time_limit: time_limit_in_seconds,
        max_claims,
        owner_name,
        desc,
        claim_mode,
    };
    let mint = ctx.lifafa.mint_of_token_being_sent;
    let bump = ctx.lifafa.bump;
    create(&mut ctx.lifafa, &mut ctx.lifafa_lamports, terms, ctx.signer, mint, bump, now)
}

} // verus!
