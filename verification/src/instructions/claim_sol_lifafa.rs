//! Claiming from an envelope of native currency.
use crate::distribution::withdrawable;
use crate::errors::LifafaError;
use crate::flows::{claim, named_claim_outcome};
use crate::guard::check_found;
use crate::identity::Identity;
use crate::states::{Lifafa, UserClaim};
use vstd::prelude::*;

verus! {

/// The accounts of a claim on a native-currency envelope.
pub struct ClaimSolLifafa {
    /// The envelope's record.
    pub lifafa: Lifafa,
    /// What the record's account holds: the pool, on top of the rent that
    /// keeps the record alive.
    pub lifafa_lamports: u64,
    /// The claimant's record for this envelope.
    pub user_claim: UserClaim,
    /// The claimant.
    pub signer: Identity,
}

/// Pays the signer's claim on the envelope that `id` names, at time `now` and
/// slot `slot`.
///
/// What can be withdrawn is what the account holds above `rent_minimum`, the
/// least it must keep. On success the share has left the account, the claim
/// is counted and the claimant's record marked; the share is returned, to be
/// credited to the signer. The refusals, in the order in which they are
/// looked for: `NotFound`, `TimeLimitExpired`, `MaxClaimsReached`,
/// `AlreadyClaimed`, `DivisionByZero`.
pub fn claim_sol_lifafa(
    ctx: &mut ClaimSolLifafa,
    id: u64,
    now: i64,
    slot: u64,
    rent_minimum: u64,
) -> (paid: Result<u64, LifafaError>)
    ensures
        paid == named_claim_outcome(
            old(ctx).lifafa,
            old(ctx).user_claim,
            id,
            now,
            slot,
            withdrawable(old(ctx).lifafa_lamports, rent_minimum),
        ),
        match paid {
            Ok(amount) => {
                &&& amount <= withdrawable(old(ctx).lifafa_lamports, rent_minimum)
                &&& *final(ctx) == (ClaimSolLifafa {
                    lifafa: Lifafa {
                        claims: (old(ctx).lifafa.claims + 1) as u64,
                        ..old(ctx).lifafa
                    },
                    lifafa_lamports: (old(ctx).lifafa_lamports - amount) as u64,
                    user_claim: UserClaim { claimed: true, amount_claimed: amount },
                    signer: old(ctx).signer,
                })
            },
            Err(_) => *final(ctx) == *old(ctx),
        },
{
    check_found(&ctx.lifafa, id)?;
    claim(&mut ctx.lifafa, &mut ctx.user_claim, &mut ctx.lifafa_lamports, rent_minimum, now, slot)
}

} // verus!
