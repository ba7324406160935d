//! Deleting an envelope of native currency.
use crate::errors::LifafaError;
use crate::flows::{deletion_refusal, sweep};
use crate::identity::Identity;
use crate::states::Lifafa;
use vstd::prelude::*;

verus! {

/// The accounts of the deletion of a native-currency envelope.
pub struct DeleteSolLifafa {
    /// The envelope's record.
    pub lifafa: Lifafa,
    /// What the record's account holds: what is left of the pool, and the
    /// rent that kept the record alive.
    pub lifafa_lamports: u64,
    /// The caller, who must be the creator.
    pub signer: Identity,
}

/// Deletes the envelope that `id` names for the signer, its creator.
///
/// On success the record is blank and its account empty; all that the
/// account held is returned, to be credited to the signer. A record that
/// does not hold the envelope is refused with `NotFound`, a signer who did
/// not create it with `Unauthorized`.
pub fn delete_sol_lifafa(ctx: &mut DeleteSolLifafa, id: u64) -> (returned: Result<
    u64,
    LifafaError,
>)
    ensures
        match returned {
            Ok(amount) => {
                &&& deletion_refusal(old(ctx).lifafa, id, old(ctx).signer) is None
                &&& amount == old(ctx).lifafa_lamports
                &&& final(ctx).lifafa_lamports == 0
                &&& final(ctx).lifafa.is_blank()
                &&& final(ctx).signer == old(ctx).signer
            },
            Err(e) => {
                &&& deletion_refusal(old(ctx).lifafa, id, old(ctx).signer) == Some(e)
                &&& *final(ctx) == *old(ctx)
            },
        },
{
    sweep(&mut ctx.lifafa, &mut ctx.lifafa_lamports, id, &ctx.signer)
}

} // verus!
