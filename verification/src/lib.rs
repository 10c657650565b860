//! Spending-policy vaults for agents.
//!
//! An owner deposits tokens into a vault and sets a policy: a cap for one
//! transaction, a cap for one day, an allowlist of recipients and an expiry. One
//! agent may pay from the vault, and only within the policy. The owner can revoke
//! the agent at any time, for good, and then take back what was not spent.
//!
//! - `pubkey`: account addresses.
//! - `address`: how the addresses of vaults and token accounts are derived.
//! - `vault`: the vault and the rules of its policy.
//! - `accounts`: the accounts of each instruction and the conditions on them.
//! - `instructions`: the six instructions.
//! - `event`: what an instruction asks for and announces.
//! - `error`: why an instruction is refused.
//! - `history`: the life of a vault as a sequence of transactions.
//! - `conduct`: what each operation does, said of its inputs and results.
//! - `laws`: what holds of the program as a whole.

pub mod accounts;
pub mod address;
pub mod conduct;
pub mod error;
pub mod event;
pub mod history;
pub mod instructions;
pub mod laws;
pub mod pubkey;
pub mod vault;

pub use crate::accounts::{
    CreateVault, ExecutePayment, FundVault, Mint, RevokeAgent, SetPolicy, Signer, TokenAccount,
    VaultAccount, WithdrawUnused,
};
pub use crate::address::{VaultSeeds, VAULT_SEED};
pub use crate::error::{CapkeyError, ConstraintError, InstructionError};
pub use crate::event::{PaymentExecuted, Revoked, TokenTransfer, Withdrawn};
pub use crate::instructions::{
    create_vault, execute_payment, fund_vault, revoke_agent, set_policy, withdraw_unused,
};
pub use crate::pubkey::Pubkey;
pub use crate::vault::{VaultPolicy, DAY_SECONDS, MAX_ALLOWED_RECIPIENTS};
