//! The transitions of one envelope, whatever holds its pool: opening it with
//! a deposit, paying a claim, and sweeping it for its creator.
use crate::distribution::{claim_amount, share, withdrawable, withdrawable_balance};
use crate::errors::LifafaError;
use crate::guard::{
    check_authority, check_ceiling, check_create_ceiling, check_description, check_found,
    check_not_expired, check_owner_name, check_unclaimed, expired,
};
use crate::identity::Identity;
use crate::states::{byte_len, ClaimMode, Lifafa, UserClaim};
use vstd::prelude::*;

verus! {

/// Why an envelope with these display texts and this claim ceiling cannot be
/// opened, if it cannot: the owner's name is looked at first, then the
/// description, then the ceiling.
pub open spec fn opening_refusal(owner_name: Seq<char>, desc: Seq<char>, max_claims: u64)
    -> Option<LifafaError> {
    if byte_len(owner_name) > crate::MAX_OWNER_NAME {
        Some(LifafaError::OwnerNameTooLong)
    } else if byte_len(desc) > crate::MAX_DESC {
        Some(LifafaError::DescriptionTooLong)
    } else if max_claims > crate::MAX_CLAIMS_ALLOWED {
        Some(LifafaError::MaxClaimsLimitExceeded)
    } else {
        None
    }
}

/// The terms an envelope is opened on.
pub struct Terms {
    /// The identifier the creator chose.
    pub id: u64,
    /// What the creator deposits.
    pub amount: u64,
    /// How many seconds claims are accepted for.
    pub time_limit: i64,
    /// The most successful claims allowed.
    pub max_claims: u64,
    /// The creator's display name.
    pub owner_name: String,
    /// A free-form description.
    pub desc: String,
    /// How shares are sized.
    pub claim_mode: ClaimMode,
}

impl Terms {
    /// The record of the envelope that these terms open for `owner` at time
    /// `now`: no claim is made on it yet.
    pub open spec fn opened(self, owner: Identity, mint: Identity, bump: u8, now: i64) -> Lifafa {
        Lifafa {
            id: self.id,
            creation_time: now,
            time_limit: self.time_limit,
            owner,
            owner_name: self.owner_name,
            claims: 0,
            max_claims: self.max_claims,
            mint_of_token_being_sent: mint,
            amount: self.amount,
            desc: self.desc,
            bump,
            claim_mode: self.claim_mode,
        }
    }

    /// Why an envelope cannot be opened on these terms, if it cannot.
    pub open spec fn refusal(self) -> Option<LifafaError> {
        opening_refusal(self.owner_name@, self.desc@, self.max_claims)
    }
}

/// Opens an envelope for `owner` at time `now`: validates the terms and
/// returns the record of an envelope on which no claim was made yet.
pub fn open(terms: Terms, owner: Identity, mint: Identity, bump: u8, now: i64) -> (opened: Result<
    Lifafa,
    LifafaError,
>)
    ensures
        match opened {
            Ok(lifafa) => {
                &&& terms.refusal() is None
                &&& lifafa == terms.opened(owner, mint, bump, now)
                &&& lifafa.wf()
            },
            Err(e) => terms.refusal() == Some(e),
        },
{
    check_owner_name(&terms.owner_name)?;
    check_description(&terms.desc)?;
    check_create_ceiling(terms.max_claims)?;
    Ok(
        Lifafa {
            id: terms.id,
            creation_time: now,
            time_limit: terms.time_limit,
            owner,
            owner_name: terms.owner_name,
            claims: 0,
            max_claims: terms.max_claims,
            mint_of_token_being_sent: mint,
            amount: terms.amount,
            desc: terms.desc,
            bump,
            claim_mode: terms.claim_mode,
        },
    )
}

/// Moves a deposit of `amount` into an escrow. A balance that cannot hold it
/// is left as it is, and the deposit refused with `TransferFailed`.
pub fn deposit(balance: &mut u64, amount: u64) -> (moved: Result<(), LifafaError>)
    ensures
        match moved {
            Ok(()) => *final(balance) == *old(balance) + amount,
            Err(e) => {
                &&& e == LifafaError::TransferFailed
                &&& *old(balance) + amount > u64::MAX
                &&& *final(balance) == *old(balance)
            },
        },
{
    match balance.checked_add(amount) {
        Some(sum) => {
            *balance = sum;
            Ok(())
        },
        None => Err(LifafaError::TransferFailed),
    }
}

/// Why a record cannot take a new envelope, if it cannot: a record that is
/// not vacant is refused first, then terms that are not valid, then a
/// deposit that the escrow cannot hold.
pub open spec fn creation_refusal(lifafa: Lifafa, balance: u64, terms: Terms) -> Option<
    LifafaError,
> {
    if !lifafa.is_vacant() {
        Some(LifafaError::LifafaAlreadyExists)
    } else if terms.refusal() is Some {
        terms.refusal()
    } else if balance + terms.amount > u64::MAX {
        Some(LifafaError::TransferFailed)
    } else {
        None
    }
}

/// Creates an envelope in a vacant record and moves the deposit into its
/// escrow. On success the record holds the new envelope, with no claim made,
/// and the escrow has grown by the deposit; the caller takes the deposit
/// from the creator. On failure nothing changes.
pub fn create(
    lifafa: &mut Lifafa,
    balance: &mut u64,
    terms: Terms,
    owner: Identity,
    mint: Identity,
    bump: u8,
    now: i64,
) -> (created: Result<(), LifafaError>)
    ensures
        match created {
            Ok(()) => {
                &&& creation_refusal(*old(lifafa), *old(balance), terms) is None
                &&& *final(lifafa) == terms.opened(owner, mint, bump, now)
                &&& final(lifafa).wf()
                &&& *final(balance) == *old(balance) + terms.amount
            },
            Err(e) => {
                &&& creation_refusal(*old(lifafa), *old(balance), terms) == Some(e)
                &&& *final(lifafa) == *old(lifafa)
                &&& *final(balance) == *old(balance)
            },
        },
{
    if !lifafa.owner.is_default() {
        return Err(LifafaError::LifafaAlreadyExists);
    }
    let amount = terms.amount;
    let opened = open(terms, owner, mint, bump, now)?;
    deposit(balance, amount)?;
    *lifafa = opened;
    Ok(())
}

/// Why `caller` cannot delete the envelope that `id` names from a record, if
/// they cannot: a record that does not hold it is refused first, then a
/// caller who did not create it.
pub open spec fn deletion_refusal(lifafa: Lifafa, id: u64, caller: Identity) -> Option<
    LifafaError,
> {
    if !lifafa.holds(id) {
        Some(LifafaError::NotFound)
    } else if caller != lifafa.owner {
        Some(LifafaError::Unauthorized)
    } else {
        None
    }
}

/// Deletes the envelope that `id` names for its creator: empties the escrow,
/// blanks the record, and returns all that the escrow held for the caller to
/// hand to the creator. On failure nothing changes.
pub fn sweep(lifafa: &mut Lifafa, balance: &mut u64, id: u64, caller: &Identity) -> (swept: Result<
    u64,
    LifafaError,
>)
    ensures
        match swept {
            Ok(amount) => {
                &&& deletion_refusal(*old(lifafa), id, *caller) is None
                &&& amount == *old(balance)
                &&& *final(balance) == 0
                &&& final(lifafa).is_blank()
            },
            Err(e) => {
                &&& deletion_refusal(*old(lifafa), id, *caller) == Some(e)
                &&& *final(lifafa) == *old(lifafa)
                &&& *final(balance) == *old(balance)
            },
        },
{
    check_found(lifafa, id)?;
    check_authority(lifafa, caller)?;
    let amount = *balance;
    *balance = 0;
    *lifafa = Lifafa::default();
    Ok(amount)
}

/// What a claim against `lifafa` by the holder of `record` comes to at time
/// `now` and slot `slot`, with `free` to withdraw: the share it pays, or the
/// first reason to refuse it, the checks being made in this order: the time
/// window, the claim ceiling, the claimant's record, the share itself.
pub open spec fn claim_outcome(lifafa: Lifafa, record: UserClaim, now: i64, slot: u64, free: u64)
    -> Result<u64, LifafaError> {
    if expired(lifafa, now) {
        Err(LifafaError::TimeLimitExpired)
    } else if lifafa.claims >= lifafa.max_claims {
        Err(LifafaError::MaxClaimsReached)
    } else if record.claimed {
        Err(LifafaError::AlreadyClaimed)
    } else {
        share(lifafa.claim_mode, slot, free, lifafa.max_claims)
    }
}

/// What a claim against the envelope that `id` names comes to: `NotFound`
/// where the record does not hold that envelope, else [`claim_outcome`].
pub open spec fn named_claim_outcome(
    lifafa: Lifafa,
    record: UserClaim,
    id: u64,
    now: i64,
    slot: u64,
    free: u64,
) -> Result<u64, LifafaError> {
    if !lifafa.holds(id) {
        Err(LifafaError::NotFound)
    } else {
        claim_outcome(lifafa, record, now, slot, free)
    }
}

/// Pays one claim out of an envelope's escrow.
///
/// `balance` is what the escrow holds and `reserve` what it must keep. On
/// success the share leaves the balance, the claim is counted and the
/// claimant's record is marked with the share, all at once; the share is
/// returned for the caller to hand to the claimant. On failure nothing
/// changes.
pub fn claim(
    lifafa: &mut Lifafa,
    record: &mut UserClaim,
    balance: &mut u64,
    reserve: u64,
    now: i64,
    slot: u64,
) -> (paid: Result<u64, LifafaError>)
    ensures
        paid == claim_outcome(
            *old(lifafa),
            *old(record),
            now,
            slot,
            withdrawable(*old(balance), reserve),
        ),
        *old(balance) >= reserve ==> *final(balance) >= reserve,
        old(lifafa).wf() ==> final(lifafa).wf(),
        match paid {
            Ok(amount) => {
                &&& amount <= withdrawable(*old(balance), reserve)
                &&& old(lifafa).claim_mode == ClaimMode::Random ==> amount < withdrawable(
                    *old(balance),
                    reserve,
                )
                &&& *final(lifafa) == (Lifafa {
                    claims: (old(lifafa).claims + 1) as u64,
                    ..*old(lifafa)
                })
                &&& *final(record) == (UserClaim { claimed: true, amount_claimed: amount })
                &&& *final(balance) == *old(balance) - amount
            },
            Err(_) => {
                &&& *final(lifafa) == *old(lifafa)
                &&& *final(record) == *old(record)
                &&& *final(balance) == *old(balance)
            },
        },
{
    check_not_expired(lifafa, now)?;
    check_ceiling(lifafa)?;
    check_unclaimed(record)?;
    let free = withdrawable_balance(*balance, reserve);
    let amount = claim_amount(lifafa.claim_mode, slot, free, lifafa.max_claims)?;
    *balance = *balance - amount;
    lifafa.claims = lifafa.claims + 1;
    record.claimed = true;
    record.amount_claimed = amount;
    Ok(amount)
}

} // verus!
