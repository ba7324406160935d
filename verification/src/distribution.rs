//! How much a claim pays out.
use crate::digest::{be_bytes, be_value, seed_from_digest, sha256, slot_digest};
use crate::errors::LifafaError;
use crate::helpers::{mix, xor_shift};
use crate::states::ClaimMode;
use vstd::prelude::*;

verus! {

/// What can be taken from an escrow of `balance` without going below
/// `reserve`, the least it must keep for its record to stay alive.
pub open spec fn withdrawable(balance: u64, reserve: u64) -> u64 {
    if balance >= reserve {
        (balance - reserve) as u64
    } else {
        0
    }
}

/// The random share that a digest selects from `withdrawable`: the digest's
/// leading eight bytes, mixed, modulo what can be withdrawn.
pub open spec fn random_share_of(digest: Seq<u8>, withdrawable: u64) -> int
    recommends
        withdrawable > 0,
{
    mix(be_value(digest) as u64) as int % withdrawable as int
}

/// The equal share: what can be withdrawn now, divided by the claim ceiling
/// the envelope was created with. Later claimants divide a smaller balance
/// by the same ceiling and so receive less.
pub open spec fn equal_share_of(withdrawable: u64, max_claims: u64) -> int
    recommends
        max_claims > 0,
{
    withdrawable as int / max_claims as int
}

/// What a claim in `mode` pays at `slot`, or why it pays nothing.
pub open spec fn share(mode: ClaimMode, slot: u64, withdrawable: u64, max_claims: u64) -> Result<
    u64,
    LifafaError,
> {
    match mode {
        ClaimMode::Random => if withdrawable == 0 {
            Err(LifafaError::DivisionByZero)
        } else {
            Ok(random_share_of(sha256(be_bytes(slot)), withdrawable) as u64)
        },
        ClaimMode::Equal => if max_claims == 0 {
            Err(LifafaError::DivisionByZero)
        } else {
            Ok(equal_share_of(withdrawable, max_claims) as u64)
        },
    }
}

/// The balance less the reserve, and zero where the reserve is not covered.
pub fn withdrawable_balance(balance: u64, reserve: u64) -> (free: u64)
    ensures
        free == withdrawable(balance, reserve),
        free <= balance,
{
    balance.saturating_sub(reserve)
}

/// The random share that `digest` selects. It is below `withdrawable`; an
/// escrow with nothing to withdraw is refused with `DivisionByZero`.
pub fn random_share(digest: &[u8; 32], withdrawable: u64) -> (amount: Result<u64, LifafaError>)
    ensures
        amount == if withdrawable == 0 {
            Err::<u64, LifafaError>(LifafaError::DivisionByZero)
        } else {
            Ok(random_share_of(digest@, withdrawable) as u64)
        },
        amount matches Ok(paid) ==> paid < withdrawable,
{
    if withdrawable == 0 {
        return Err(LifafaError::DivisionByZero);
    }
    let seed = seed_from_digest(digest);
    Ok(xor_shift(seed) % withdrawable)
}

/// The equal share of `withdrawable` among `max_claims`. A ceiling of zero
/// is refused with `DivisionByZero`.
pub fn equal_share(withdrawable: u64, max_claims: u64) -> (amount: Result<u64, LifafaError>)
    ensures
        amount == if max_claims == 0 {
            Err::<u64, LifafaError>(LifafaError::DivisionByZero)
        } else {
            Ok(equal_share_of(withdrawable, max_claims) as u64)
        },
        amount matches Ok(paid) ==> paid <= withdrawable,
{
    if max_claims == 0 {
        return Err(LifafaError::DivisionByZero);
    }
    let paid = withdrawable / max_claims;
    assert(paid <= withdrawable) by (nonlinear_arith)
        requires
            paid == withdrawable / max_claims,
            max_claims > 0,
    ;
    Ok(paid)
}

/// The share that a claim in `mode` pays at `slot`: see [`share`]. The
/// random share hashes the slot number; it never exceeds, and in `Random`
/// mode never reaches, what can be withdrawn.
pub fn claim_amount(mode: ClaimMode, slot: u64, withdrawable: u64, max_claims: u64) -> (amount:
    Result<u64, LifafaError>)
    ensures
        amount == share(mode, slot, withdrawable, max_claims),
        amount matches Ok(paid) ==> paid <= withdrawable && (mode == ClaimMode::Random ==> paid
            < withdrawable),
{
    match mode {
        ClaimMode::Random => {
            if withdrawable == 0 {
                return Err(LifafaError::DivisionByZero);
            }
            let digest = slot_digest(slot);
            random_share(&digest, withdrawable)
        },
        ClaimMode::Equal => equal_share(withdrawable, max_claims),
    }
}

} // verus!
