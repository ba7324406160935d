//! The checks made at the start of every operation that changes an envelope.
use crate::errors::LifafaError;
use crate::identity::Identity;
use crate::states::{byte_len, Lifafa, UserClaim};
use vstd::prelude::*;

verus! {

/// Refuses with `NotFound` a record that does not hold the envelope that
/// `id` names: one that is vacant, or holds an envelope of another name.
pub fn check_found(lifafa: &Lifafa, id: u64) -> (checked: Result<(), LifafaError>)
    ensures
        checked == if lifafa.holds(id) {
            Ok::<(), LifafaError>(())
        } else {
            Err(LifafaError::NotFound)
        },
{
    if lifafa.owner.is_default() || lifafa.id != id {
        Err(LifafaError::NotFound)
    } else {
        Ok(())
    }
}

/// Whether the claim window of `lifafa` is closed at `now`: strictly more
/// seconds have passed since its creation than its time limit.
pub open spec fn expired(lifafa: Lifafa, now: i64) -> bool {
    now > lifafa.deadline()
}

/// Where an envelope that has not been deleted stands.
#[derive(Clone, Copy, Debug, PartialEq, Eq, Structural)]
pub enum Phase {
    /// Claims are accepted.
    Active,
    /// The window has closed or the ceiling is reached: every claim is
    /// refused, and the envelope waits to be deleted.
    Closed,
}

/// Where `lifafa` stands at `now`.
pub open spec fn phase_of(lifafa: Lifafa, now: i64) -> Phase {
    if expired(lifafa, now) || lifafa.claims >= lifafa.max_claims {
        Phase::Closed
    } else {
        Phase::Active
    }
}

/// Where the envelope stands at `now`: closed once its window has passed or
/// its claim ceiling is reached, active until then.
pub fn phase(lifafa: &Lifafa, now: i64) -> (phase: Phase)
    ensures
        phase == phase_of(*lifafa, now),
{
    if check_not_expired(lifafa, now).is_err() || check_ceiling(lifafa).is_err() {
        Phase::Closed
    } else {
        Phase::Active
    }
}

/// Refuses with `TimeLimitExpired` once `now` is past the envelope's last
/// second; at that second itself the envelope is still open.
pub fn check_not_expired(lifafa: &Lifafa, now: i64) -> (checked: Result<(), LifafaError>)
    ensures
        checked == if expired(*lifafa, now) {
            Err::<(), LifafaError>(LifafaError::TimeLimitExpired)
        } else {
            Ok(())
        },
{
    let deadline: i128 = lifafa.creation_time as i128 + lifafa.time_limit as i128;
    if now as i128 > deadline {
        Err(LifafaError::TimeLimitExpired)
    } else {
        Ok(())
    }
}

/// Refuses with `MaxClaimsReached` once as many claims were made as the
/// envelope allows.
pub fn check_ceiling(lifafa: &Lifafa) -> (checked: Result<(), LifafaError>)
    ensures
        checked == if lifafa.claims >= lifafa.max_claims {
            Err::<(), LifafaError>(LifafaError::MaxClaimsReached)
        } else {
            Ok(())
        },
{
    if lifafa.claims >= lifafa.max_claims {
        Err(LifafaError::MaxClaimsReached)
    } else {
        Ok(())
    }
}

/// Refuses with `AlreadyClaimed` a claimant whose record is marked.
pub fn check_unclaimed(record: &UserClaim) -> (checked: Result<(), LifafaError>)
    ensures
        checked == if record.claimed {
            Err::<(), LifafaError>(LifafaError::AlreadyClaimed)
        } else {
            Ok(())
        },
{
    if record.claimed {
        Err(LifafaError::AlreadyClaimed)
    } else {
        Ok(())
    }
}

/// Refuses with `MaxClaimsLimitExceeded` a claim ceiling above
/// [`crate::MAX_CLAIMS_ALLOWED`].
pub fn check_create_ceiling(max_claims: u64) -> (checked: Result<(), LifafaError>)
    ensures
        checked == if max_claims > crate::MAX_CLAIMS_ALLOWED {
            Err::<(), LifafaError>(LifafaError::MaxClaimsLimitExceeded)
        } else {
            Ok(())
        },
{
    if max_claims > crate::MAX_CLAIMS_ALLOWED as u64 {
        Err(LifafaError::MaxClaimsLimitExceeded)
    } else {
        Ok(())
    }
}

/// Refuses with `Unauthorized` every caller but the envelope's creator.
pub fn check_authority(lifafa: &Lifafa, caller: &Identity) -> (checked: Result<(), LifafaError>)
    ensures
        checked == if *caller == lifafa.owner {
            Ok::<(), LifafaError>(())
        } else {
            Err(LifafaError::Unauthorized)
        },
{
    if *caller == lifafa.owner {
        Ok(())
    } else {
        Err(LifafaError::Unauthorized)
    }
}

/// Refuses with `OwnerNameTooLong` a display name of more than
/// [`crate::MAX_OWNER_NAME`] bytes.
pub fn check_owner_name(owner_name: &String) -> (checked: Result<(), LifafaError>)
    ensures
        checked == if byte_len(owner_name@) > crate::MAX_OWNER_NAME {
            Err::<(), LifafaError>(LifafaError::OwnerNameTooLong)
        } else {
            Ok(())
        },
{
    if owner_name.as_str().as_bytes().len() > crate::MAX_OWNER_NAME as usize {
        Err(LifafaError::OwnerNameTooLong)
    } else {
        Ok(())
    }
}

/// Refuses with `DescriptionTooLong` a description of more than
/// [`crate::MAX_DESC`] bytes.
pub fn check_description(desc: &String) -> (checked: Result<(), LifafaError>)
    ensures
        checked == if byte_len(desc@) > crate::MAX_DESC {
            Err::<(), LifafaError>(LifafaError::DescriptionTooLong)
        } else {
            Ok(())
        },
{
    if desc.as_str().as_bytes().len() > crate::MAX_DESC as usize {
        Err(LifafaError::DescriptionTooLong)
    } else {
        Ok(())
    }
}

} // verus!
