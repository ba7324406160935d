//! Claiming from an envelope of tokens.
use crate::errors::LifafaError;
use crate::flows::{claim, named_claim_outcome};
use crate::guard::check_found;
use crate::identity::Identity;
use crate::states::{Lifafa, UserClaim};
use vstd::prelude::*;

verus! {

/// The accounts of a claim on a token envelope.
pub struct ClaimSplLifafa {
    /// The envelope's record.
    pub lifafa: Lifafa,
    /// The claimant's record for this envelope.
    pub user_claim: UserClaim,
    /// The tokens in the envelope's vault.
    pub vault_amount: u64,
    /// The claimant.
    pub signer: Identity,
}

/// Pays the signer's claim on the envelope that `id` names, at time `now` and
/// slot `slot`.
///
/// All that the vault holds can be withdrawn. On success the share has left
/// the vault, the claim is counted and the claimant's record marked; the
/// share is returned, to be transferred to the signer's token account. The
/// refusals, in the order in which they are looked for: `NotFound`,
/// `TimeLimitExpired`, `MaxClaimsReached`, `AlreadyClaimed`,
/// `DivisionByZero`.
pub fn claim_spl_lifafa(ctx: &mut ClaimSplLifafa, id: u64, now: i64, slot: u64) -> (paid: Result<
    u64,
    LifafaError,
>)
    ensures
        paid == named_claim_outcome(
            old(ctx).lifafa,
            old(ctx).user_claim,
            id,
            now,
            slot,
            old(ctx).vault_amount,
        ),
        match paid {
            Ok(amount) => {
                &&& amount <= old(ctx).vault_amount
                &&& *final(ctx) == (ClaimSplLifafa {
                    lifafa: Lifafa {
                        claims: (old(ctx).lifafa.claims + 1) as u64,
                        ..old(ctx).lifafa
                    },
                    user_claim: UserClaim { claimed: true, amount_claimed: amount },
                    vault_amount: (old(ctx).vault_amount - amount) as u64,
                    signer: old(ctx).signer,
                })
            },
            Err(_) => *final(ctx) == *old(ctx),
        },
{
    check_found(&ctx.lifafa, id)?;
    claim(&mut ctx.lifafa, &mut ctx.user_claim, &mut ctx.vault_amount, 0, now, slot)
}

} // verus!
