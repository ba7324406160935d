//! The persisted records: an envelope and a claimant's record.
use crate::errors::LifafaError;
use crate::identity::Identity;
use vstd::prelude::*;

verus! {

/// How the size of a share is chosen.
#[derive(Clone, Copy, Debug, PartialEq, Eq, Structural)]
pub enum ClaimMode {
    /// A pseudo-random share below what can be withdrawn.
    Random,
    /// What can be withdrawn, divided by the envelope's claim ceiling.
    Equal,
}

impl ClaimMode {
    /// The mode that `value` names, if it names one.
    pub open spec fn of_u8(value: u8) -> Result<ClaimMode, LifafaError> {
        if value == 0 {
            Ok(ClaimMode::Random)
        } else if value == 1 {
            Ok(ClaimMode::Equal)
        } else {
            Err(LifafaError::InvalidClaimMode)
        }
    }

    /// Reads a mode from its number: 0 is `Random`, 1 is `Equal`, anything
    /// else is refused with `InvalidClaimMode`.
    pub fn from_u8(value: u8) -> (mode: Result<ClaimMode, LifafaError>)
        ensures
            mode == Self::of_u8(value),
    {
        match value {
            0 => Ok(ClaimMode::Random),
            1 => Ok(ClaimMode::Equal),
            _ => Err(LifafaError::InvalidClaimMode),
        }
    }
}

/// What one claimant has taken from one envelope.
#[derive(Clone, Copy, Debug, PartialEq, Eq, Structural)]
pub struct UserClaim {
    /// Set by the claimant's one successful claim, never reset.
    pub claimed: bool,
    /// The share that claim paid out.
    pub amount_claimed: u64,
}

impl Default for UserClaim {
    /// The record of a claimant who has not claimed.
    fn default() -> (record: UserClaim)
        ensures
            record == (UserClaim { claimed: false, amount_claimed: 0 }),
    {
        UserClaim { claimed: false, amount_claimed: 0 }
    }
}

/// One envelope: a pool of value in escrow and the rules for claiming it.
/// Only `claims` changes after creation.
#[derive(Clone, Debug)]
pub struct Lifafa {
    /// The identifier the creator chose.
    pub id: u64,
    /// When the envelope was created, in seconds.
    pub creation_time: i64,
    /// How many seconds after creation claims are accepted.
    pub time_limit: i64,
    /// The creator, who alone may delete the envelope.
    pub owner: Identity,
    /// The creator's display name.
    pub owner_name: String,
    /// The successful claims so far.
    pub claims: u64,
    /// The most successful claims the envelope allows.
    pub max_claims: u64,
    /// The token the pool is held in; zero for the native currency.
    pub mint_of_token_being_sent: Identity,
    /// What the creator deposited.
    pub amount: u64,
    /// A free-form description.
    pub desc: String,
    /// The bump of the address the record is stored under.
    pub bump: u8,
    /// How shares are sized.
    pub claim_mode: ClaimMode,
}

/// The number of bytes that `text` takes as UTF-8.
pub open spec fn byte_len(text: Seq<char>) -> nat {
    vstd::utf8::encode_utf8(text).len()
}

impl Lifafa {
    /// What holds of every envelope that was created and claimed from: the
    /// display texts and the claim ceiling are within their limits, and no
    /// more claims were made than the ceiling allows.
    pub open spec fn wf(&self) -> bool {
        &&& byte_len(self.owner_name@) <= crate::MAX_OWNER_NAME
        &&& byte_len(self.desc@) <= crate::MAX_DESC
        &&& self.max_claims <= crate::MAX_CLAIMS_ALLOWED
        &&& self.claims <= self.max_claims
    }

    /// Whether the record holds no envelope: its owner is the zero identity.
    pub open spec fn is_vacant(&self) -> bool {
        self.owner.is_zero()
    }

    /// Whether the record is as a closed account leaves it: vacant, every
    /// number zero, every text empty.
    pub open spec fn is_blank(&self) -> bool {
        &&& self.is_vacant()
        &&& self.id == 0
        &&& self.creation_time == 0
        &&& self.time_limit == 0
        &&& self.owner_name@ == Seq::<char>::empty()
        &&& self.claims == 0
        &&& self.max_claims == 0
        &&& self.mint_of_token_being_sent.is_zero()
        &&& self.amount == 0
        &&& self.desc@ == Seq::<char>::empty()
        &&& self.bump == 0
        &&& self.claim_mode == ClaimMode::Random
    }

    /// Whether the record holds the envelope that `id` names.
    pub open spec fn holds(&self, id: u64) -> bool {
        !self.is_vacant() && self.id == id
    }

    /// The last second at which a claim is accepted.
    pub open spec fn deadline(&self) -> int {
        self.creation_time + self.time_limit
    }
}

impl Default for Lifafa {
    /// The vacant record: every number zero, every text empty.
    fn default() -> (lifafa: Lifafa)
        ensures
            lifafa.is_blank(),
            lifafa.wf(),
    {
        let lifafa = Lifafa {
            id: 0,
            creation_time: 0,
            time_limit: 0,
            owner: Identity::default(),
            owner_name: String::new(),
            claims: 0,
            max_claims: 0,
            mint_of_token_being_sent: Identity::default(),
            amount: 0,
            desc: String::new(),
            bump: 0,
            claim_mode: ClaimMode::Random,
        };
        assert(vstd::utf8::encode_utf8(Seq::<char>::empty()).len() == 0);
        lifafa
    }
}

} // verus!
