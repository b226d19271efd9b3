use vstd::prelude::*;

verus! {

/// Every way an operation can fail. An operation that fails leaves every
/// account it was handed as it found it.
#[derive(Clone, Copy, Debug, PartialEq, Eq, Structural)]
pub enum TokenAclError {
    /// The signer does not match the identity the operation requires.
    InvalidAuthority,
    /// The mint lacks the default-account-state feature or a freeze
    /// authority, or does not match the record or the token account.
    InvalidTokenMint,
    /// The configuration record is not at its derived address, or not owned
    /// by this program.
    InvalidMintConfig,
    InvalidSystemProgram,
    InvalidTokenProgram,
    PermissionlessFreezeNotEnabled,
    PermissionlessThawNotEnabled,
    /// The decision program named by the caller is not the record's.
    InvalidGatingProgram,
    InvalidTokenAccountOwner,
    /// The request bytes do not form a known operation.
    InvalidInstructionData,
    /// An account's data cannot be read as what it should hold.
    InvalidAccountData,
    /// Fewer accounts were supplied than the operation, or its context
    /// descriptors, need.
    NotEnoughAccountKeys,
    /// A context descriptor reads past the end of an account's data.
    AccountDataTooSmall,
    /// No program address exists for the seeds.
    InvalidSeeds,
    /// A derived account that must be signed for is not at the derived address.
    MissingRequiredSignature,
    /// An account that must be created already holds data or an owner.
    AccountAlreadyInUse,
    InsufficientFunds,
    ArithmeticOverflow,
    /// The token program refused: the account's mint differs from the mint.
    TokenMintMismatch,
    /// The token program refused: the account is not in the state the
    /// action starts from.
    TokenInvalidState,
    /// The token program refused: the record does not hold the mint's
    /// freeze authority.
    TokenOwnerMismatch,
    /// The token program refused: the account is not initialized.
    TokenUninitializedState,
    /// The decision program's own rejection, with its code as it gave it.
    GateRejected(u32),
}

/// The families of failure.
#[derive(Clone, Copy, Debug, PartialEq, Eq, Structural)]
pub enum ErrorKind {
    Authority,
    AccountValidation,
    Policy,
    ExternalDecision,
    Resource,
}

pub open spec fn kind_of(e: TokenAclError) -> ErrorKind {
    match e {
        TokenAclError::InvalidAuthority | TokenAclError::MissingRequiredSignature => ErrorKind::Authority,
        TokenAclError::PermissionlessFreezeNotEnabled
        | TokenAclError::PermissionlessThawNotEnabled
        | TokenAclError::InvalidGatingProgram => ErrorKind::Policy,
        TokenAclError::GateRejected(_) => ErrorKind::ExternalDecision,
        TokenAclError::NotEnoughAccountKeys
        | TokenAclError::InsufficientFunds
        | TokenAclError::ArithmeticOverflow => ErrorKind::Resource,
        _ => ErrorKind::AccountValidation,
    }
}

impl TokenAclError {
    /// The family this failure belongs to.
    pub fn kind(&self) -> (r: ErrorKind)
        ensures
            r == kind_of(*self),
    {
        match self {
            TokenAclError::InvalidAuthority | TokenAclError::MissingRequiredSignature => ErrorKind::Authority,
            TokenAclError::PermissionlessFreezeNotEnabled
            | TokenAclError::PermissionlessThawNotEnabled
            | TokenAclError::InvalidGatingProgram => ErrorKind::Policy,
            TokenAclError::GateRejected(_) => ErrorKind::ExternalDecision,
            TokenAclError::NotEnoughAccountKeys
            | TokenAclError::InsufficientFunds
            | TokenAclError::ArithmeticOverflow => ErrorKind::Resource,
            _ => ErrorKind::AccountValidation,
        }
    }
}

} // verus!
