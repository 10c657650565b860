//! The accounts that each instruction works on, and the conditions that they
//! must meet before it runs.
//!
//! The types here hold what was loaded from the ledger. A `Signer` has signed the
//! transaction, a `VaultAccount` is stored by this program, and a `TokenAccount`
//! and a `Mint` are stored by the token program.
use vstd::prelude::*;
use crate::error::{CapkeyError, ConstraintError, InstructionError};
use crate::pubkey::{key_bytes, lemma_key_is_its_bytes, Pubkey};
use crate::vault::VaultPolicy;

verus! {

/// An account that signed the transaction.
#[derive(Clone, Copy, Debug, PartialEq, Eq)]
pub struct Signer {
    pub key: Pubkey,
    pub is_writable: bool,
}

/// The mint of a token.
#[derive(Clone, Copy, Debug, PartialEq, Eq)]
pub struct Mint {
    pub key: Pubkey,
    pub is_writable: bool,
}

/// An account that holds `amount` tokens of `mint` for the wallet `owner`.
#[derive(Clone, Copy, Debug, PartialEq, Eq)]
pub struct TokenAccount {
    pub key: Pubkey,
    pub is_writable: bool,
    pub mint: Pubkey,
    pub owner: Pubkey,
    pub amount: u64,
}

/// An account that stores a vault.
#[derive(Clone, Copy, Debug, PartialEq, Eq)]
pub struct VaultAccount {
    pub key: Pubkey,
    pub is_writable: bool,
    pub policy: VaultPolicy,
}

/// Creates a vault. The vault and its token account are new: nothing that the vault
/// account holds beforehand is read. Whether their addresses are free is for the system
/// program to say, which creates no account at an address in use.
#[derive(Clone, Copy, Debug, PartialEq, Eq)]
pub struct CreateVault {
    pub owner: Signer,
    pub agent: Signer,
    pub vault: VaultAccount,
    /// Whether an account was stored at the vault's address before.
    pub vault_in_use: bool,
    pub vault_token_account: TokenAccount,
    /// Whether an account was stored at the address of the vault's tokens before.
    pub vault_tokens_in_use: bool,
    pub mint: Mint,
    pub owner_token_account: TokenAccount,
}

/// Adds tokens of its mint to the budget of a vault.
#[derive(Clone, Copy, Debug, PartialEq, Eq)]
pub struct FundVault {
    pub owner: Signer,
    pub vault: VaultAccount,
    pub vault_token_account: TokenAccount,
    pub mint: Mint,
    pub owner_token_account: TokenAccount,
}

/// Sets the policy of a vault.
#[derive(Clone, Copy, Debug, PartialEq, Eq)]
pub struct SetPolicy {
    pub owner: Signer,
    pub vault: VaultAccount,
}

/// Pays a recipient from a vault, in tokens of its mint.
#[derive(Clone, Copy, Debug, PartialEq, Eq)]
pub struct ExecutePayment {
    pub vault: VaultAccount,
    pub agent: Signer,
    pub vault_token_account: TokenAccount,
    pub recipient_token_account: TokenAccount,
    pub mint: Mint,
}

/// Revokes the agent of a vault.
#[derive(Clone, Copy, Debug, PartialEq, Eq)]
pub struct RevokeAgent {
    pub owner: Signer,
    pub vault: VaultAccount,
}

/// Takes the tokens of a vault back. They may be of any mint, so that tokens that
/// strayed into the vault are not lost.
#[derive(Clone, Copy, Debug, PartialEq, Eq)]
pub struct WithdrawUnused {
    pub owner: Signer,
    pub vault: VaultAccount,
    pub vault_token_account: TokenAccount,
    pub owner_token_account: TokenAccount,
    pub mint: Mint,
}

/// Whether the account `key` is at `address`.
pub open spec fn is_at(key: Pubkey, address: Option<Seq<u8>>) -> bool {
    address == Some(key@)
}

/// Whether the account `key` is at `address`.
fn at_address(key: &Pubkey, address: &Option<Pubkey>) -> (at: bool)
    ensures
        at == is_at(*key, key_bytes(*address)),
{
    broadcast use lemma_key_is_its_bytes;

    match address {
        Some(address) => *key == *address,
        None => false,
    }
}

impl TokenAccount {
    /// The condition that the account fails, if it fails one, as the token account
    /// of the wallet `authority`, which is to be at `address`.
    pub open spec fn associated_error(
        self,
        authority: Pubkey,
        address: Option<Seq<u8>>,
    ) -> Option<InstructionError> {
        if self.owner != authority {
            Some(InstructionError::Constraint(ConstraintError::ConstraintTokenOwner))
        } else if !is_at(self.key, address) {
            Some(InstructionError::Constraint(ConstraintError::ConstraintAssociated))
        } else if !self.is_writable {
            Some(InstructionError::Constraint(ConstraintError::ConstraintMut))
        } else {
            None
        }
    }

    /// Checks that the account is the token account, at `address`, of the wallet
    /// `authority`, and that it may change.
    pub fn check_associated(&self, authority: &Pubkey, address: &Option<Pubkey>) -> (outcome:
        Result<(), InstructionError>)
        ensures
            match self.associated_error(*authority, key_bytes(*address)) {
                Some(error) => outcome == Err::<(), InstructionError>(error),
                None => outcome == Ok::<(), InstructionError>(()),
            },
    {
        if self.owner != *authority {
            return Err(InstructionError::Constraint(ConstraintError::ConstraintTokenOwner));
        }
        if !at_address(&self.key, address) {
            return Err(InstructionError::Constraint(ConstraintError::ConstraintAssociated));
        }
        if !self.is_writable {
            return Err(InstructionError::Constraint(ConstraintError::ConstraintMut));
        }
        Ok(())
    }
}

impl VaultAccount {
    /// The condition that keeps `owner` from acting as the owner of this vault,
    /// which is to be at `address`, if there is one.
    pub open spec fn owner_error(
        self,
        owner: Signer,
        address: Option<Seq<u8>>,
    ) -> Option<InstructionError> {
        if !owner.is_writable {
            Some(InstructionError::Constraint(ConstraintError::ConstraintMut))
        } else if !is_at(self.key, address) {
            Some(InstructionError::Constraint(ConstraintError::ConstraintSeeds))
        } else if !self.is_writable {
            Some(InstructionError::Constraint(ConstraintError::ConstraintMut))
        } else if self.policy.owner != owner.key {
            Some(InstructionError::Constraint(ConstraintError::ConstraintHasOne))
        } else {
            None
        }
    }

    /// Checks that `owner` owns this vault, which is to be at `address`, and that
    /// both accounts may change.
    pub fn check_owner(&self, owner: &Signer, address: &Option<Pubkey>) -> (outcome: Result<
        (),
        InstructionError,
    >)
        ensures
            match self.owner_error(*owner, key_bytes(*address)) {
                Some(error) => outcome == Err::<(), InstructionError>(error),
                None => outcome == Ok::<(), InstructionError>(()),
            },
    {
        if !owner.is_writable {
            return Err(InstructionError::Constraint(ConstraintError::ConstraintMut));
        }
        if !at_address(&self.key, address) {
            return Err(InstructionError::Constraint(ConstraintError::ConstraintSeeds));
        }
        if !self.is_writable {
            return Err(InstructionError::Constraint(ConstraintError::ConstraintMut));
        }
        if self.policy.owner != owner.key {
            return Err(InstructionError::Constraint(ConstraintError::ConstraintHasOne));
        }
        Ok(())
    }
}

impl CreateVault {
    /// The condition that the accounts fail, if they fail one, where the vault, its
    /// tokens and the owner's tokens are to be at the given addresses.
    pub open spec fn refusal(
        self,
        vault_address: Option<Seq<u8>>,
        vault_tokens: Option<Seq<u8>>,
        owner_tokens: Option<Seq<u8>>,
    ) -> Option<InstructionError> {
        if !is_at(self.vault.key, vault_address) {
            Some(InstructionError::Constraint(ConstraintError::ConstraintSeeds))
        } else if self.vault_in_use {
            Some(InstructionError::AddressInUse)
        } else if !self.vault.is_writable {
            Some(InstructionError::Constraint(ConstraintError::ConstraintMut))
        } else if self.vault_token_account.associated_error(self.vault.key, vault_tokens) is Some {
            self.vault_token_account.associated_error(self.vault.key, vault_tokens)
        } else if self.vault_tokens_in_use {
            Some(InstructionError::AddressInUse)
        } else if !self.owner.is_writable || !self.mint.is_writable {
            Some(InstructionError::Constraint(ConstraintError::ConstraintMut))
        } else {
            self.owner_token_account.associated_error(self.owner.key, owner_tokens)
        }
    }

    /// Checks the accounts against the addresses that were derived for them.
    pub fn check(
        &self,
        vault_address: &Option<Pubkey>,
        vault_tokens: &Option<Pubkey>,
        owner_tokens: &Option<Pubkey>,
    ) -> (outcome: Result<(), InstructionError>)
        ensures
            match self.refusal(
                key_bytes(*vault_address),
                key_bytes(*vault_tokens),
                key_bytes(*owner_tokens),
            ) {
                Some(error) => outcome == Err::<(), InstructionError>(error),
                None => outcome == Ok::<(), InstructionError>(()),
            },
    {
        if !at_address(&self.vault.key, vault_address) {
            return Err(InstructionError::Constraint(ConstraintError::ConstraintSeeds));
        }
        if self.vault_in_use {
            return Err(InstructionError::AddressInUse);
        }
        if !self.vault.is_writable {
            return Err(InstructionError::Constraint(ConstraintError::ConstraintMut));
        }
        self.vault_token_account.check_associated(&self.vault.key, vault_tokens)?;
        if self.vault_tokens_in_use {
            return Err(InstructionError::AddressInUse);
        }
        if !self.owner.is_writable {
            return Err(InstructionError::Constraint(ConstraintError::ConstraintMut));
        }
        if !self.mint.is_writable {
            return Err(InstructionError::Constraint(ConstraintError::ConstraintMut));
        }
        self.owner_token_account.check_associated(&self.owner.key, owner_tokens)
    }
}

impl FundVault {
    /// The condition that the accounts fail, if they fail one, where the vault, its
    /// tokens and the owner's tokens are to be at the given addresses.
    pub open spec fn refusal(
        self,
        vault_address: Option<Seq<u8>>,
        vault_tokens: Option<Seq<u8>>,
        owner_tokens: Option<Seq<u8>>,
    ) -> Option<InstructionError> {
        if self.vault.owner_error(self.owner, vault_address) is Some {
            self.vault.owner_error(self.owner, vault_address)
        } else if self.vault_token_account.associated_error(self.vault.key, vault_tokens) is Some {
            self.vault_token_account.associated_error(self.vault.key, vault_tokens)
        } else if self.owner_token_account.associated_error(self.owner.key, owner_tokens) is Some {
            self.owner_token_account.associated_error(self.owner.key, owner_tokens)
        } else if self.mint.key != self.vault.policy.token_mint {
            Some(InstructionError::Constraint(ConstraintError::ConstraintTokenMint))
        } else {
            None
        }
    }

    /// Checks the accounts against the addresses that were derived for them.
    pub fn check(
        &self,
        vault_address: &Option<Pubkey>,
        vault_tokens: &Option<Pubkey>,
        owner_tokens: &Option<Pubkey>,
    ) -> (outcome: Result<(), InstructionError>)
        ensures
            match self.refusal(
                key_bytes(*vault_address),
                key_bytes(*vault_tokens),
                key_bytes(*owner_tokens),
            ) {
                Some(error) => outcome == Err::<(), InstructionError>(error),
                None => outcome == Ok::<(), InstructionError>(()),
            },
    {
        self.vault.check_owner(&self.owner, vault_address)?;
        self.vault_token_account.check_associated(&self.vault.key, vault_tokens)?;
        self.owner_token_account.check_associated(&self.owner.key, owner_tokens)?;
        if self.mint.key != self.vault.policy.token_mint {
            return Err(InstructionError::Constraint(ConstraintError::ConstraintTokenMint));
        }
        Ok(())
    }
}

impl ExecutePayment {
    /// The condition that the accounts fail, if they fail one, where the vault and
    /// its tokens are to be at the given addresses.
    pub open spec fn refusal(
        self,
        vault_address: Option<Seq<u8>>,
        vault_tokens: Option<Seq<u8>>,
    ) -> Option<InstructionError> {
        if !is_at(self.vault.key, vault_address) {
            Some(InstructionError::Constraint(ConstraintError::ConstraintSeeds))
        } else if !self.vault.is_writable {
            Some(InstructionError::Constraint(ConstraintError::ConstraintMut))
        } else if self.vault.policy.agent != self.agent.key {
            Some(InstructionError::Capkey(CapkeyError::WrongAgent))
        } else if self.vault_token_account.associated_error(self.vault.key, vault_tokens) is Some {
            self.vault_token_account.associated_error(self.vault.key, vault_tokens)
        } else if !self.recipient_token_account.is_writable {
            Some(InstructionError::Constraint(ConstraintError::ConstraintMut))
        } else if self.recipient_token_account.mint != self.mint.key {
            Some(InstructionError::Capkey(CapkeyError::RecipientNotAllowed))
        } else if self.mint.key != self.vault.policy.token_mint {
            Some(InstructionError::Constraint(ConstraintError::ConstraintTokenMint))
        } else {
            None
        }
    }

    /// Checks the accounts against the addresses that were derived for them.
    pub fn check(&self, vault_address: &Option<Pubkey>, vault_tokens: &Option<Pubkey>) -> (outcome:
        Result<(), InstructionError>)
        ensures
            match self.refusal(key_bytes(*vault_address), key_bytes(*vault_tokens)) {
                Some(error) => outcome == Err::<(), InstructionError>(error),
                None => outcome == Ok::<(), InstructionError>(()),
            },
    {
        if !at_address(&self.vault.key, vault_address) {
            return Err(InstructionError::Constraint(ConstraintError::ConstraintSeeds));
        }
        if !self.vault.is_writable {
            return Err(InstructionError::Constraint(ConstraintError::ConstraintMut));
        }
        if self.vault.policy.agent != self.agent.key {
            return Err(InstructionError::Capkey(CapkeyError::WrongAgent));
        }
        self.vault_token_account.check_associated(&self.vault.key, vault_tokens)?;
        if !self.recipient_token_account.is_writable {
            return Err(InstructionError::Constraint(ConstraintError::ConstraintMut));
        }
        if self.recipient_token_account.mint != self.mint.key {
            return Err(InstructionError::Capkey(CapkeyError::RecipientNotAllowed));
        }
        if self.mint.key != self.vault.policy.token_mint {
            return Err(InstructionError::Constraint(ConstraintError::ConstraintTokenMint));
        }
        Ok(())
    }
}

impl WithdrawUnused {
    /// The condition that the accounts fail, if they fail one, where the vault, its
    /// tokens and the owner's tokens are to be at the given addresses.
    pub open spec fn refusal(
        self,
        vault_address: Option<Seq<u8>>,
        vault_tokens: Option<Seq<u8>>,
        owner_tokens: Option<Seq<u8>>,
    ) -> Option<InstructionError> {
        if self.vault.owner_error(self.owner, vault_address) is Some {
            self.vault.owner_error(self.owner, vault_address)
        } else if self.vault_token_account.associated_error(self.vault.key, vault_tokens) is Some {
            self.vault_token_account.associated_error(self.vault.key, vault_tokens)
        } else {
            self.owner_token_account.associated_error(self.owner.key, owner_tokens)
        }
    }

    /// Checks the accounts against the addresses that were derived for them.
    pub fn check(
        &self,
        vault_address: &Option<Pubkey>,
        vault_tokens: &Option<Pubkey>,
        owner_tokens: &Option<Pubkey>,
    ) -> (outcome: Result<(), InstructionError>)
        ensures
            match self.refusal(
                key_bytes(*vault_address),
                key_bytes(*vault_tokens),
                key_bytes(*owner_tokens),
            ) {
                Some(error) => outcome == Err::<(), InstructionError>(error),
                None => outcome == Ok::<(), InstructionError>(()),
            },
    {
        self.vault.check_owner(&self.owner, vault_address)?;
        self.vault_token_account.check_associated(&self.vault.key, vault_tokens)?;
        self.owner_token_account.check_associated(&self.owner.key, owner_tokens)
    }
}

} // verus!
