//! Deleting an envelope of tokens.
use crate::errors::LifafaError;
use crate::flows::{deletion_refusal, sweep};
use crate::identity::Identity;
use crate::states::Lifafa;
use vstd::prelude::*;

verus! {

/// The accounts of the deletion of a token envelope.
pub struct DeleteSplLifafa {
    /// The envelope's record.
    pub lifafa: Lifafa,
    /// The tokens left in the envelope's vault.
    pub vault_amount: u64,
    /// The caller, who must be the creator.
    pub signer: Identity,
}

/// Deletes the envelope that `id` names for the signer, its creator.
///
/// On success the record is blank and the vault empty; the tokens that the
/// vault held are returned, to be transferred to the signer's token account
/// before the vault is closed. A record that does not hold the envelope is
/// refused with `NotFound`, a signer who did not create it with
/// `Unauthorized`.
pub fn delete_spl_lifafa(ctx: &mut DeleteSplLifafa, id: u64) -> (returned: Result<
    u64,
    LifafaError,
>)
    ensures
        match returned {
            Ok(amount) => {
                &&& deletion_refusal(old(ctx).lifafa, id, old(ctx).signer) is None
                &&& amount == old(ctx).vault_amount
                &&& final(ctx).vault_amount == 0
                &&& final(ctx).lifafa.is_blank()
                &&& final(ctx).signer == old(ctx).signer
            },
            Err(e) => {
                &&& deletion_refusal(old(ctx).lifafa, id, old(ctx).signer) == Some(e)
                &&& *final(ctx) == *old(ctx)
            },
        },
{
    sweep(&mut ctx.lifafa, &mut ctx.vault_amount, id, &ctx.signer)
}

} // verus!
