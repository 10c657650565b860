//! The ways in which an instruction is refused.
use vstd::prelude::*;

verus! {

/// The rules of the vault that a request can break.
#[derive(Clone, Copy, Debug, PartialEq, Eq, Structural)]
pub enum CapkeyError {
    ZeroAmount,
    VaultRevoked,
    VaultExpired,
    ExceedsMaxPerTx,
    ExceedsDailyLimit,
    RecipientNotAllowed,
    TooManyRecipients,
    PolicyInconsistent,
    WrongAgent,
    VaultStillActive,
    NothingToWithdraw,
}

/// The conditions on the accounts of an instruction that can fail.
#[derive(Clone, Copy, Debug, PartialEq, Eq, Structural)]
pub enum ConstraintError {
    /// An account that the instruction changes is not writable.
    ConstraintMut,
    /// The vault names another owner than the one who signed.
    ConstraintHasOne,
    /// The vault is not at the address that its seeds lead to.
    ConstraintSeeds,
    /// A token account is not the one associated with its wallet and mint.
    ConstraintAssociated,
    /// A token account belongs to another wallet.
    ConstraintTokenOwner,
    /// The tokens are not of the mint that the vault is bound to.
    ConstraintTokenMint,
}

/// Why an instruction was refused.
#[derive(Clone, Copy, Debug, PartialEq, Eq, Structural)]
pub enum InstructionError {
    /// The accounts do not fit the instruction.
    Constraint(ConstraintError),
    /// The request breaks a rule of the vault.
    Capkey(CapkeyError),
    /// An account that is to be created exists already.
    AddressInUse,
    /// The time was needed and could not be read.
    ClockUnavailable,
}

impl CapkeyError {
    /// The text that explains the error.
    pub open spec fn text(self) -> Seq<char> {
        match self {
            CapkeyError::ZeroAmount => "Amount must be greater than zero."@,
            CapkeyError::VaultRevoked => "Vault has been revoked by the owner."@,
            CapkeyError::VaultExpired => "Vault policy has expired."@,
            CapkeyError::ExceedsMaxPerTx => "Amount exceeds the per-transaction cap."@,
            CapkeyError::ExceedsDailyLimit => "Amount exceeds the remaining daily limit."@,
            CapkeyError::RecipientNotAllowed =>
                "Recipient token account is not on the vault allowlist."@,
            CapkeyError::TooManyRecipients => "Allowlist may contain at most 3 recipients."@,
            CapkeyError::PolicyInconsistent => "Daily limit must be >= per-transaction cap."@,
            CapkeyError::WrongAgent => "Agent does not match the agent bound to this vault."@,
            CapkeyError::VaultStillActive =>
                "Vault is still active and not yet expired. Revoke it or wait for expiry before withdrawing."@,
            CapkeyError::NothingToWithdraw => "Vault holds no tokens. Nothing to withdraw."@,
        }
    }

    /// The text that explains the error to whoever sent the request.
    pub fn msg(&self) -> (msg: &'static str)
        ensures
            msg@ == self.text(),
    {
        match self {
            CapkeyError::ZeroAmount => "Amount must be greater than zero.",
            CapkeyError::VaultRevoked => "Vault has been revoked by the owner.",
            CapkeyError::VaultExpired => "Vault policy has expired.",
            CapkeyError::ExceedsMaxPerTx => "Amount exceeds the per-transaction cap.",
            CapkeyError::ExceedsDailyLimit => "Amount exceeds the remaining daily limit.",
            CapkeyError::RecipientNotAllowed =>
                "Recipient token account is not on the vault allowlist.",
            CapkeyError::TooManyRecipients => "Allowlist may contain at most 3 recipients.",
            CapkeyError::PolicyInconsistent => "Daily limit must be >= per-transaction cap.",
            CapkeyError::WrongAgent => "Agent does not match the agent bound to this vault.",
            CapkeyError::VaultStillActive =>
                "Vault is still active and not yet expired. Revoke it or wait for expiry before withdrawing.",
            CapkeyError::NothingToWithdraw => "Vault holds no tokens. Nothing to withdraw.",
        }
    }
}

} // verus!
