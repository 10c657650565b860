//! What an instruction asks for and what it announces.
use vstd::prelude::*;
use crate::address::VaultSeeds;
use crate::pubkey::Pubkey;

verus! {

/// A request to the token program: move `amount` tokens between two token
/// accounts on behalf of `authority`. Where the authority is a vault, the request
/// carries the seeds under which the vault signs.
#[derive(Clone, Copy, Debug, PartialEq, Eq)]
pub struct TokenTransfer {
    pub from: Pubkey,
    pub to: Pubkey,
    pub authority: Pubkey,
    pub amount: u64,
    pub signer: Option<VaultSeeds>,
}

/// The agent has paid a recipient.
#[derive(Clone, Copy, Debug, PartialEq, Eq)]
pub struct PaymentExecuted {
    pub vault: Pubkey,
    pub agent: Pubkey,
    pub recipient: Pubkey,
    pub amount: u64,
    pub daily_remaining: u64,
}

/// The owner has revoked the agent.
#[derive(Clone, Copy, Debug, PartialEq, Eq)]
pub struct Revoked {
    pub vault: Pubkey,
}

/// The owner has taken the remaining balance back.
#[derive(Clone, Copy, Debug, PartialEq, Eq)]
pub struct Withdrawn {
    pub vault: Pubkey,
    pub owner: Pubkey,
    pub amount: u64,
}

} // verus!
