//! Why an operation on an envelope is refused.
use vstd::prelude::*;

verus! {

/// The reasons for which `create`, `claim` and `delete` fail. Each is found
/// before anything is changed: a failed operation leaves no trace.
#[derive(Clone, Copy, Debug, PartialEq, Eq, Structural)]
pub enum LifafaError {
    /// The claim window has closed.
    TimeLimitExpired,
    /// The caller is not the envelope's creator.
    Unauthorized,
    /// The claimant has already taken a share of this envelope.
    AlreadyClaimed,
    /// As many claims were made as the envelope allows.
    MaxClaimsReached,
    /// The owner's display name is longer than [`crate::MAX_OWNER_NAME`] bytes.
    OwnerNameTooLong,
    /// The description is longer than [`crate::MAX_DESC`] bytes.
    DescriptionTooLong,
    /// An envelope with this identifier is already there.
    LifafaAlreadyExists,
    /// The number given for the distribution mode names none.
    InvalidClaimMode,
    /// More claims were asked for than [`crate::MAX_CLAIMS_ALLOWED`].
    MaxClaimsLimitExceeded,
    /// No envelope with this identifier is there.
    NotFound,
    /// A random share was asked of an escrow with nothing to withdraw.
    DivisionByZero,
    /// The escrow balance cannot take the deposit.
    TransferFailed,
}

impl LifafaError {
    /// The text of [`LifafaError::message`].
    pub open spec fn message_text(self) -> Seq<char> {
        match self {
            LifafaError::TimeLimitExpired => "TimeLimit has expired"@,
            LifafaError::Unauthorized => "Unauthorized"@,
            LifafaError::AlreadyClaimed => "Already claimed"@,
            LifafaError::MaxClaimsReached => "Max Claims Reached"@,
            LifafaError::OwnerNameTooLong => "Owner name too long"@,
            LifafaError::DescriptionTooLong => "Description too long"@,
            LifafaError::LifafaAlreadyExists => "Lifafa Already Exists"@,
            LifafaError::InvalidClaimMode => "Invalid Claim Mode"@,
            LifafaError::MaxClaimsLimitExceeded => "Max Claims Limit Exceeded"@,
            LifafaError::NotFound => "Lifafa Not Found"@,
            LifafaError::DivisionByZero => "Nothing left to withdraw"@,
            LifafaError::TransferFailed => "Transfer failed"@,
        }
    }

    /// A short description for the caller.
    pub fn message(&self) -> (text: &'static str)
        ensures
            text@ == self.message_text(),
    {
        match self {
            LifafaError::TimeLimitExpired => "TimeLimit has expired",
            LifafaError::Unauthorized => "Unauthorized",
            LifafaError::AlreadyClaimed => "Already claimed",
            LifafaError::MaxClaimsReached => "Max Claims Reached",
            LifafaError::OwnerNameTooLong => "Owner name too long",
            LifafaError::DescriptionTooLong => "Description too long",
            LifafaError::LifafaAlreadyExists => "Lifafa Already Exists",
            LifafaError::InvalidClaimMode => "Invalid Claim Mode",
            LifafaError::MaxClaimsLimitExceeded => "Max Claims Limit Exceeded",
            LifafaError::NotFound => "Lifafa Not Found",
            LifafaError::DivisionByZero => "Nothing left to withdraw",
            LifafaError::TransferFailed => "Transfer failed",
        }
    }
}

} // verus!
