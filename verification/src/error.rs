//! Error taxonomy of the ledger.
//!
//! Every failure is terminal within its call and is reported as a structured
//! code, never swallowed or downgraded. `VaultError` is the ledger's own
//! taxonomy; `ProgramError` adds the host-level guard failures that arise
//! before a record is even decoded, and is what the transition processor
//! returns.

use vstd::prelude::*;

verus! {

/// The ledger's own failure kinds.
#[derive(Clone, Copy, Debug, PartialEq, Eq, Structural)]
pub enum VaultError {
    InvalidAuthority,
    InvalidGlobalConfig,
    InvalidVaultAccount,
    InvalidDelegateAccount,
    InvalidOwner,
    InvalidDelegate,
    AccountAlreadyExists,
    AlreadyInitialized,
    SerializationError,
    DeserializationError,
    InsufficientCollateral,
    InsufficientFreeCollateral,
    DelegateNotActive,
    DelegateExpired,
    PermissionDenied,
    NotionalLimitExceeded,
    VaultFrozen,
    InvalidAmount,
    InvalidTokenMint,
    InvalidTokenAccount,
    InvalidTokenTransfer,
    ArithmeticOverflow,
    ArithmeticUnderflow,
    InvalidExpirySlot,
    InvalidPermissions,
    InvalidMaxNotional,
    NumericalOverflow,
}

impl VaultError {
    /// The stable numeric code a host reports for this error, assigned in
    /// declaration order.
    pub fn code(&self) -> (r: u32)
        ensures
            r == self.spec_code(),
    {
        match self {
            VaultError::InvalidAuthority => 0,
            VaultError::InvalidGlobalConfig => 1,
            VaultError::InvalidVaultAccount => 2,
            VaultError::InvalidDelegateAccount => 3,
            VaultError::InvalidOwner => 4,
            VaultError::InvalidDelegate => 5,
            VaultError::AccountAlreadyExists => 6,
            VaultError::AlreadyInitialized => 7,
            VaultError::SerializationError => 8,
            VaultError::DeserializationError => 9,
            VaultError::InsufficientCollateral => 10,
            VaultError::InsufficientFreeCollateral => 11,
            VaultError::DelegateNotActive => 12,
            VaultError::DelegateExpired => 13,
            VaultError::PermissionDenied => 14,
            VaultError::NotionalLimitExceeded => 15,
            VaultError::VaultFrozen => 16,
            VaultError::InvalidAmount => 17,
            VaultError::InvalidTokenMint => 18,
            VaultError::InvalidTokenAccount => 19,
            VaultError::InvalidTokenTransfer => 20,
            VaultError::ArithmeticOverflow => 21,
            VaultError::ArithmeticUnderflow => 22,
            VaultError::InvalidExpirySlot => 23,
            VaultError::InvalidPermissions => 24,
            VaultError::InvalidMaxNotional => 25,
            VaultError::NumericalOverflow => 26,
        }
    }

    /// Specification of `code`.
    pub open spec fn spec_code(&self) -> u32 {
        match self {
            VaultError::InvalidAuthority => 0,
            VaultError::InvalidGlobalConfig => 1,
            VaultError::InvalidVaultAccount => 2,
            VaultError::InvalidDelegateAccount => 3,
            VaultError::InvalidOwner => 4,
            VaultError::InvalidDelegate => 5,
            VaultError::AccountAlreadyExists => 6,
            VaultError::AlreadyInitialized => 7,
            VaultError::SerializationError => 8,
            VaultError::DeserializationError => 9,
            VaultError::InsufficientCollateral => 10,
            VaultError::InsufficientFreeCollateral => 11,
            VaultError::DelegateNotActive => 12,
            VaultError::DelegateExpired => 13,
            VaultError::PermissionDenied => 14,
            VaultError::NotionalLimitExceeded => 15,
            VaultError::VaultFrozen => 16,
            VaultError::InvalidAmount => 17,
            VaultError::InvalidTokenMint => 18,
            VaultError::InvalidTokenAccount => 19,
            VaultError::InvalidTokenTransfer => 20,
            VaultError::ArithmeticOverflow => 21,
            VaultError::ArithmeticUnderflow => 22,
            VaultError::InvalidExpirySlot => 23,
            VaultError::InvalidPermissions => 24,
            VaultError::InvalidMaxNotional => 25,
            VaultError::NumericalOverflow => 26,
        }
    }

    /// A human-readable description of the error.
    pub fn message(&self) -> (r: &'static str) {
        match self {
            VaultError::InvalidAuthority => "Invalid Admin Authority",
            VaultError::InvalidGlobalConfig => "Invalid Global Config Account",
            VaultError::InvalidVaultAccount => "Invalid Vault Account",
            VaultError::InvalidDelegateAccount => "Invalid Delegate Account",
            VaultError::InvalidOwner => "Invalid Owner",
            VaultError::InvalidDelegate => "Invalid Delegate",
            VaultError::AccountAlreadyExists => "Account Already Exists",
            VaultError::AlreadyInitialized => "Account Already Initialized",
            VaultError::SerializationError => "Serialization Error",
            VaultError::DeserializationError => "Deserialization Error",
            VaultError::InsufficientCollateral => "Insufficient Collateral",
            VaultError::InsufficientFreeCollateral => "Insufficient Free Collateral",
            VaultError::DelegateNotActive => "Delegate Not Active",
            VaultError::DelegateExpired => "Delegate Expired",
            VaultError::PermissionDenied => "Permission Denied",
            VaultError::NotionalLimitExceeded => "Notional Limit Exceeded",
            VaultError::VaultFrozen => "Vault Is Frozen",
            VaultError::InvalidAmount => "Invalid Amount",
            VaultError::InvalidTokenMint => "Invalid Token Mint",
            VaultError::InvalidTokenAccount => "Invalid Token Account",
            VaultError::InvalidTokenTransfer => "Invalid Token Transfer",
            VaultError::ArithmeticOverflow => "Arithmetic Overflow",
            VaultError::ArithmeticUnderflow => "Arithmetic Underflow",
            VaultError::InvalidExpirySlot => "Invalid Expiry Slot",
            VaultError::InvalidPermissions => "Invalid Permissions",
            VaultError::InvalidMaxNotional => "Invalid Max Notional",
            VaultError::NumericalOverflow => "Numerical Overflow",
        }
    }
}

/// A host-level failure: what the transition processor returns when a guard
/// or an account-list check fails before (or instead of) a ledger rule.
#[derive(Clone, Copy, Debug, PartialEq, Eq, Structural)]
pub enum ProgramError {
    /// A required signature is missing on an account reference.
    MissingRequiredSignature,
    /// An account that must be writable is not.
    InvalidAccountData,
    /// An account is owned by the wrong program.
    IllegalOwner,
    /// An address does not match its derivation from the expected seeds.
    InvalidSeeds,
    /// A well-known program account is not the expected one.
    IncorrectProgramId,
    /// The call supplied fewer account references than the operation needs.
    NotEnoughAccountKeys,
    /// A token account that has never been initialized.
    UninitializedAccount,
    /// A ledger-level failure.
    Vault(VaultError),
}

impl From<VaultError> for ProgramError {
    fn from(e: VaultError) -> (r: Self)
        ensures
            r == ProgramError::Vault(e),
    {
        ProgramError::Vault(e)
    }
}

impl vstd::std_specs::convert::FromSpecImpl<VaultError> for ProgramError {
    open spec fn obeys_from_spec() -> bool {
        true
    }

    open spec fn from_spec(e: VaultError) -> Self {
        ProgramError::Vault(e)
    }
}

} // verus!
