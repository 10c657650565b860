//! The instructions of the program.
//!
//! Each instruction checks its accounts, then the request, and then says what is
//! to happen: the vault as it is to be stored, the transfer that the token program
//! is to carry out, and the event to announce once it has. An instruction that is
//! refused leaves its accounts as they were and asks for no transfer.
//!
//! The free functions derive the addresses that the accounts must be at. The
//! `apply` methods take those addresses and do the rest.
use vstd::prelude::*;
use crate::accounts::{
    CreateVault, ExecutePayment, FundVault, RevokeAgent, SetPolicy, VaultAccount, WithdrawUnused,
};
use crate::address::{
    associated_token_address, find_vault_address, found_bytes, found_program_address,
    lemma_first_address, program_address, token_address, vault_seeds, VaultSeeds,
    ASSOCIATED_TOKEN_PROGRAM_ID, TOKEN_PROGRAM_ID, VAULT_SEED,
};
use crate::conduct::law_vault_seeds;
use crate::error::{CapkeyError, InstructionError};
use crate::event::{PaymentExecuted, Revoked, TokenTransfer, Withdrawn};
use crate::pubkey::{key_bytes, Pubkey};
use crate::vault::VaultPolicy;

verus! {

/// The address out of one that was found together with its bump.
pub open spec fn address_of(found: Option<(Seq<u8>, u8)>) -> Option<Seq<u8>> {
    match found {
        Some((address, _)) => Some(address),
        None => None,
    }
}

impl VaultAccount {
    /// The seeds of the vault's address where `owner` is the one who acts on it.
    pub open spec fn seeds_for(self, owner: Pubkey) -> Seq<Seq<u8>> {
        vault_seeds(owner, self.policy.agent, self.policy.token_mint).push(seq![self.policy.bump])
    }

    /// Derives the vault's address where `owner` is the one who acts on it.
    pub fn address_for(&self, owner: &Pubkey, program_id: &Pubkey) -> (address: Option<Pubkey>)
        ensures
            key_bytes(address) == program_address(self.seeds_for(*owner), program_id@),
    {
        let seeds = VaultSeeds {
            owner: *owner,
            agent: self.policy.agent,
            token_mint: self.policy.token_mint,
            bump: [self.policy.bump],
        };
        assert(seeds.bump@ =~= seq![self.policy.bump]);
        seeds.address(program_id)
    }
}

impl CreateVault {
    /// What creating a vault comes to: the accounts afterwards and the transfer of
    /// the deposit, or the reason why it is refused.
    pub open spec fn outcome(
        self,
        found: Option<(Seq<u8>, u8)>,
        vault_tokens: Option<Seq<u8>>,
        owner_tokens: Option<Seq<u8>>,
        initial_deposit: u64,
    ) -> Result<(Self, TokenTransfer), InstructionError> {
        match self.refusal(address_of(found), vault_tokens, owner_tokens) {
            Some(error) => Err(error),
            None => if initial_deposit == 0 {
                Err(InstructionError::Capkey(CapkeyError::ZeroAmount))
            } else {
                Ok(
                    (
                        CreateVault {
                            vault: VaultAccount {
                                policy: VaultPolicy::fresh(
                                    self.owner.key,
                                    self.agent.key,
                                    self.mint.key,
                                    (found->0).1,
                                ),
                                ..self.vault
                            },
                            ..self
                        },
                        TokenTransfer {
                            from: self.owner_token_account.key,
                            to: self.vault_token_account.key,
                            authority: self.owner.key,
                            amount: initial_deposit,
                            signer: None,
                        },
                    ),
                )
            },
        }
    }

    /// Creates the vault, given the address and bump found for it and the addresses
    /// derived for the token accounts.
    pub fn apply(
        &mut self,
        found: &Option<(Pubkey, u8)>,
        vault_tokens: &Option<Pubkey>,
        owner_tokens: &Option<Pubkey>,
        initial_deposit: u64,
    ) -> (outcome: Result<TokenTransfer, InstructionError>)
        ensures
            match old(self).outcome(
                found_bytes(*found),
                key_bytes(*vault_tokens),
                key_bytes(*owner_tokens),
                initial_deposit,
            ) {
                Ok((accounts, transfer)) => *final(self) == accounts && outcome == Ok::<
                    TokenTransfer,
                    InstructionError,
                >(transfer),
                Err(error) => *final(self) == *old(self) && outcome == Err::<
                    TokenTransfer,
                    InstructionError,
                >(error),
            },
    {
        let vault_address: Option<Pubkey> = match found {
            Some((address, _)) => Some(*address),
            None => None,
        };
        self.check(&vault_address, vault_tokens, owner_tokens)?;
        if initial_deposit == 0 {
            return Err(InstructionError::Capkey(CapkeyError::ZeroAmount));
        }
        match found {
            Some((_, bump)) => {
                self.vault.policy =
                VaultPolicy::new(&self.owner.key, &self.agent.key, &self.mint.key, *bump);
            },
            None => {},
        }
        Ok(
            TokenTransfer {
                from: self.owner_token_account.key,
                to: self.vault_token_account.key,
                authority: self.owner.key,
                amount: initial_deposit,
                signer: None,
            },
        )
    }
}

impl FundVault {
    /// What funding a vault comes to: the transfer of the tokens, or the reason why
    /// it is refused.
    pub open spec fn outcome(
        self,
        vault_address: Option<Seq<u8>>,
        vault_tokens: Option<Seq<u8>>,
        owner_tokens: Option<Seq<u8>>,
        amount: u64,
    ) -> Result<TokenTransfer, InstructionError> {
        match self.refusal(vault_address, vault_tokens, owner_tokens) {
            Some(error) => Err(error),
            None => if amount == 0 {
                Err(InstructionError::Capkey(CapkeyError::ZeroAmount))
            } else {
                Ok(
                    TokenTransfer {
                        from: self.owner_token_account.key,
                        to: self.vault_token_account.key,
                        authority: self.owner.key,
                        amount,
                        signer: None,
                    },
                )
            },
        }
    }

    /// Funds the vault, given the addresses derived for the accounts.
    pub fn apply(
        &self,
        vault_address: &Option<Pubkey>,
        vault_tokens: &Option<Pubkey>,
        owner_tokens: &Option<Pubkey>,
        amount: u64,
    ) -> (outcome: Result<TokenTransfer, InstructionError>)
        ensures
            outcome == self.outcome(
                key_bytes(*vault_address),
                key_bytes(*vault_tokens),
                key_bytes(*owner_tokens),
                amount,
            ),
    {
        self.check(vault_address, vault_tokens, owner_tokens)?;
        if amount == 0 {
            return Err(InstructionError::Capkey(CapkeyError::ZeroAmount));
        }
        Ok(
            TokenTransfer {
                from: self.owner_token_account.key,
                to: self.vault_token_account.key,
                authority: self.owner.key,
                amount,
                signer: None,
            },
        )
    }
}

impl SetPolicy {
    /// What setting a policy comes to: the accounts afterwards, or the reason why
    /// it is refused.
    pub open spec fn outcome(
        self,
        vault_address: Option<Seq<u8>>,
        max_per_tx: u64,
        daily_limit: u64,
        expiry_ts: i64,
        allowed_recipients: Seq<Pubkey>,
    ) -> Result<Self, InstructionError> {
        match self.vault.owner_error(self.owner, vault_address) {
            Some(error) => Err(error),
            None => match VaultPolicy::policy_error(max_per_tx, daily_limit, allowed_recipients) {
                Some(error) => Err(InstructionError::Capkey(error)),
                None => Ok(
                    SetPolicy {
                        vault: VaultAccount {
                            policy: self.vault.policy.after_policy(
                                max_per_tx,
                                daily_limit,
                                expiry_ts,
                                allowed_recipients,
                            ),
                            ..self.vault
                        },
                        ..self
                    },
                ),
            },
        }
    }

    /// Sets the policy, given the address derived for the vault.
    pub fn apply(
        &mut self,
        vault_address: &Option<Pubkey>,
        max_per_tx: u64,
        daily_limit: u64,
        expiry_ts: i64,
        allowed_recipients: &Vec<Pubkey>,
    ) -> (outcome: Result<(), InstructionError>)
        ensures
            match old(self).outcome(
                key_bytes(*vault_address),
                max_per_tx,
                daily_limit,
                expiry_ts,
                allowed_recipients@,
            ) {
                Ok(accounts) => *final(self) == accounts && outcome == Ok::<(), InstructionError>(
                    (),
                ),
                Err(error) => *final(self) == *old(self) && outcome == Err::<(), InstructionError>(
                    error,
                ),
            },
    {
        self.vault.check_owner(&self.owner, vault_address)?;
        match self.vault.policy.replace_policy(
            max_per_tx,
            daily_limit,
            expiry_ts,
            allowed_recipients,
        ) {
            Ok(()) => Ok(()),
            Err(error) => Err(InstructionError::Capkey(error)),
        }
    }
}

impl ExecutePayment {
    /// What a payment comes to: the accounts afterwards, the transfer and the
    /// event, or the reason why it is refused.
    pub open spec fn outcome(
        self,
        vault_address: Option<Seq<u8>>,
        vault_tokens: Option<Seq<u8>>,
        amount: u64,
        clock: Option<i64>,
    ) -> Result<(Self, TokenTransfer, PaymentExecuted), InstructionError> {
        let recipient = self.recipient_token_account.owner;
        match self.refusal(vault_address, vault_tokens) {
            Some(error) => Err(error),
            None => match self.vault.policy.payment_error(amount, clock, recipient) {
                Some(error) => Err(error),
                None => {
                    let policy = self.vault.policy.after_payment(amount, clock->0);
                    Ok(
                        (
                            ExecutePayment { vault: VaultAccount { policy, ..self.vault }, ..self },
                            TokenTransfer {
                                from: self.vault_token_account.key,
                                to: self.recipient_token_account.key,
                                authority: self.vault.key,
                                amount,
                                signer: Some(self.vault.policy.signer_seeds()),
                            },
                            PaymentExecuted {
                                vault: self.vault.key,
                                agent: self.vault.policy.agent,
                                recipient,
                                amount,
                                daily_remaining: (policy.daily_limit
                                    - policy.amount_spent_today) as u64,
                            },
                        ),
                    )
                },
            },
        }
    }

    /// Makes the payment, given the addresses derived for the accounts.
    pub fn apply(
        &mut self,
        vault_address: &Option<Pubkey>,
        vault_tokens: &Option<Pubkey>,
        amount: u64,
        clock: Option<i64>,
    ) -> (outcome: Result<(TokenTransfer, PaymentExecuted), InstructionError>)
        requires
            old(self).vault.policy.wf(),
        ensures
            match old(self).outcome(
                key_bytes(*vault_address),
                key_bytes(*vault_tokens),
                amount,
                clock,
            ) {
                Ok((accounts, transfer, event)) => *final(self) == accounts && outcome == Ok::<
                    (TokenTransfer, PaymentExecuted),
                    InstructionError,
                >((transfer, event)),
                Err(error) => *final(self) == *old(self) && outcome == Err::<
                    (TokenTransfer, PaymentExecuted),
                    InstructionError,
                >(error),
            },
    {
        self.check(vault_address, vault_tokens)?;
        let recipient: Pubkey = self.recipient_token_account.owner;
        let daily_remaining: u64 = self.vault.policy.charge(amount, clock, &recipient)?;
        Ok(
            (
                TokenTransfer {
                    from: self.vault_token_account.key,
                    to: self.recipient_token_account.key,
                    authority: self.vault.key,
                    amount,
                    signer: Some(self.vault.policy.seeds()),
                },
                PaymentExecuted {
                    vault: self.vault.key,
                    agent: self.vault.policy.agent,
                    recipient,
                    amount,
                    daily_remaining,
                },
            ),
        )
    }
}

impl RevokeAgent {
    /// What revoking an agent comes to: the accounts afterwards and the event, or
    /// the reason why it is refused.
    pub open spec fn outcome(self, vault_address: Option<Seq<u8>>) -> Result<
        (Self, Revoked),
        InstructionError,
    > {
        match self.vault.owner_error(self.owner, vault_address) {
            Some(error) => Err(error),
            None => Ok(
                (
                    RevokeAgent {
                        vault: VaultAccount {
                            policy: self.vault.policy.after_revocation(),
                            ..self.vault
                        },
                        ..self
                    },
                    Revoked { vault: self.vault.key },
                ),
            ),
        }
    }

    /// Revokes the agent, given the address derived for the vault.
    pub fn apply(&mut self, vault_address: &Option<Pubkey>) -> (outcome: Result<
        Revoked,
        InstructionError,
    >)
        ensures
            match old(self).outcome(key_bytes(*vault_address)) {
                Ok((accounts, event)) => *final(self) == accounts && outcome == Ok::<
                    Revoked,
                    InstructionError,
                >(event),
                Err(error) => *final(self) == *old(self) && outcome == Err::<
                    Revoked,
                    InstructionError,
                >(error),
            },
    {
        self.vault.check_owner(&self.owner, vault_address)?;
        self.vault.policy.revoke();
        Ok(Revoked { vault: self.vault.key })
    }
}

impl WithdrawUnused {
    /// What a withdrawal comes to: the transfer of all that the vault holds and the
    /// event, or the reason why it is refused.
    pub open spec fn outcome(
        self,
        vault_address: Option<Seq<u8>>,
        vault_tokens: Option<Seq<u8>>,
        owner_tokens: Option<Seq<u8>>,
        clock: Option<i64>,
    ) -> Result<(TokenTransfer, Withdrawn), InstructionError> {
        let amount = self.vault_token_account.amount;
        match self.refusal(vault_address, vault_tokens, owner_tokens) {
            Some(error) => Err(error),
            None => match self.vault.policy.withdrawal_error(clock, amount) {
                Some(error) => Err(error),
                None => Ok(
                    (
                        TokenTransfer {
                            from: self.vault_token_account.key,
                            to: self.owner_token_account.key,
                            authority: self.vault.key,
                            amount,
                            signer: Some(self.vault.policy.signer_seeds()),
                        },
                        Withdrawn { vault: self.vault.key, owner: self.vault.policy.owner, amount },
                    ),
                ),
            },
        }
    }

    /// Makes the withdrawal, given the addresses derived for the accounts.
    pub fn apply(
        &self,
        vault_address: &Option<Pubkey>,
        vault_tokens: &Option<Pubkey>,
        owner_tokens: &Option<Pubkey>,
        clock: Option<i64>,
    ) -> (outcome: Result<(TokenTransfer, Withdrawn), InstructionError>)
        ensures
            outcome == self.outcome(
                key_bytes(*vault_address),
                key_bytes(*vault_tokens),
                key_bytes(*owner_tokens),
                clock,
            ),
    {
        self.check(vault_address, vault_tokens, owner_tokens)?;
        let amount: u64 = self.vault_token_account.amount;
        self.vault.policy.check_withdrawal(clock, amount)?;
        Ok(
            (
                TokenTransfer {
                    from: self.vault_token_account.key,
                    to: self.owner_token_account.key,
                    authority: self.vault.key,
                    amount,
                    signer: Some(self.vault.policy.seeds()),
                },
                Withdrawn { vault: self.vault.key, owner: self.vault.policy.owner, amount },
            ),
        )
    }
}

/// Creates a vault that is bound to its owner, its agent and its mint, and asks for
/// the transfer of the first deposit into it. The vault is at the address that its
/// own seeds lead to, so that its owner can act on it from then on. An address that is
/// in use is refused, so that no vault is ever created anew.
pub fn create_vault(program_id: &Pubkey, ctx: &mut CreateVault, initial_deposit: u64) -> (outcome:
    Result<TokenTransfer, InstructionError>)
    ensures
        match old(ctx).outcome(
            found_program_address(
                vault_seeds(old(ctx).owner.key, old(ctx).agent.key, old(ctx).mint.key),
                program_id@,
            ),
            token_address(old(ctx).vault.key, old(ctx).mint.key),
            token_address(old(ctx).owner.key, old(ctx).mint.key),
            initial_deposit,
        ) {
            Ok((accounts, transfer)) => {
                &&& *final(ctx) == accounts
                &&& outcome == Ok::<TokenTransfer, InstructionError>(transfer)
                &&& program_address(
                    final(ctx).vault.seeds_for(final(ctx).owner.key),
                    program_id@,
                ) == Some(final(ctx).vault.key@)
                &&& final(ctx).vault.owner_error(
                    final(ctx).owner,
                    program_address(
                        final(ctx).vault.seeds_for(final(ctx).owner.key),
                        program_id@,
                    ),
                ) is None
            },
            Err(error) => *final(ctx) == *old(ctx) && outcome == Err::<
                TokenTransfer,
                InstructionError,
            >(error),
        },
        outcome matches Ok(transfer) ==> {
            &&& transfer.amount == initial_deposit
            &&& transfer.authority == old(ctx).owner.key
            &&& found_program_address(
                seq![
                    VAULT_SEED@,
                    old(ctx).owner.key@,
                    old(ctx).agent.key@,
                    old(ctx).mint.key@,
                ],
                program_id@,
            ) == Some((old(ctx).vault.key@, final(ctx).vault.policy.bump))
            &&& found_program_address(
                seq![old(ctx).vault.key@, TOKEN_PROGRAM_ID@, old(ctx).mint.key@],
                ASSOCIATED_TOKEN_PROGRAM_ID@,
            ) matches Some((address, _)) && address == transfer.to@
            &&& found_program_address(
                seq![old(ctx).owner.key@, TOKEN_PROGRAM_ID@, old(ctx).mint.key@],
                ASSOCIATED_TOKEN_PROGRAM_ID@,
            ) matches Some((address, _)) && address == transfer.from@
        },
{
    let found = find_vault_address(&ctx.owner.key, &ctx.agent.key, &ctx.mint.key, program_id);
    proof {
        lemma_first_address(
            vault_seeds(ctx.owner.key, ctx.agent.key, ctx.mint.key),
            program_id@,
            u8::MAX as nat,
        );
    }
    let vault_tokens = associated_token_address(&ctx.vault.key, &ctx.mint.key);
    let owner_tokens = associated_token_address(&ctx.owner.key, &ctx.mint.key);
    ctx.apply(&found, &vault_tokens, &owner_tokens, initial_deposit)
}

/// Tops up the budget of a vault, in tokens of the mint that it is bound to. Only its
/// owner may do so.
pub fn fund_vault(program_id: &Pubkey, ctx: &FundVault, amount: u64) -> (outcome: Result<
    TokenTransfer,
    InstructionError,
>)
    ensures
        outcome == ctx.outcome(
            program_address(ctx.vault.seeds_for(ctx.owner.key), program_id@),
            token_address(ctx.vault.key, ctx.mint.key),
            token_address(ctx.owner.key, ctx.mint.key),
            amount,
        ),
        outcome matches Ok(transfer) ==> {
            &&& transfer.amount == amount
            &&& program_address(
                seq![
                    VAULT_SEED@,
                    ctx.owner.key@,
                    ctx.vault.policy.agent@,
                    ctx.vault.policy.token_mint@,
                    seq![ctx.vault.policy.bump],
                ],
                program_id@,
            ) == Some(ctx.vault.key@)
            &&& found_program_address(
                seq![ctx.vault.key@, TOKEN_PROGRAM_ID@, ctx.mint.key@],
                ASSOCIATED_TOKEN_PROGRAM_ID@,
            ) matches Some((address, _)) && address == transfer.to@
            &&& found_program_address(
                seq![ctx.owner.key@, TOKEN_PROGRAM_ID@, ctx.mint.key@],
                ASSOCIATED_TOKEN_PROGRAM_ID@,
            ) matches Some((address, _)) && address == transfer.from@
        },
{
    proof {
        law_vault_seeds(ctx.vault.policy.signer_seeds(), ctx.vault, ctx.owner.key);
    }
    let vault_address = ctx.vault.address_for(&ctx.owner.key, program_id);
    let vault_tokens = associated_token_address(&ctx.vault.key, &ctx.mint.key);
    let owner_tokens = associated_token_address(&ctx.owner.key, &ctx.mint.key);
    ctx.apply(&vault_address, &vault_tokens, &owner_tokens, amount)
}

/// Sets or updates the spending envelope of a vault. Only its owner may do so. An
/// empty allowlist pauses the vault: until it is filled again no payment succeeds,
/// and unlike a revocation this can be taken back.
pub fn set_policy(
    program_id: &Pubkey,
    ctx: &mut SetPolicy,
    max_per_tx: u64,
    daily_limit: u64,
    expiry_ts: i64,
    allowed_recipients: Vec<Pubkey>,
) -> (outcome: Result<(), InstructionError>)
    ensures
        match old(ctx).outcome(
            program_address(old(ctx).vault.seeds_for(old(ctx).owner.key), program_id@),
            max_per_tx,
            daily_limit,
            expiry_ts,
            allowed_recipients@,
        ) {
            Ok(accounts) => *final(ctx) == accounts && outcome == Ok::<(), InstructionError>(()),
            Err(error) => *final(ctx) == *old(ctx) && outcome == Err::<(), InstructionError>(error),
        },
        outcome is Ok <==> {
            &&& old(ctx).owner.is_writable
            &&& old(ctx).vault.is_writable
            &&& old(ctx).owner.key == old(ctx).vault.policy.owner
            &&& program_address(
                seq![
                    VAULT_SEED@,
                    old(ctx).owner.key@,
                    old(ctx).vault.policy.agent@,
                    old(ctx).vault.policy.token_mint@,
                    seq![old(ctx).vault.policy.bump],
                ],
                program_id@,
            ) == Some(old(ctx).vault.key@)
            &&& allowed_recipients@.len() <= 3
            &&& max_per_tx <= daily_limit
        },
{
    proof {
        law_vault_seeds(ctx.vault.policy.signer_seeds(), ctx.vault, ctx.owner.key);
    }
    let vault_address = ctx.vault.address_for(&ctx.owner.key, program_id);
    ctx.apply(&vault_address, max_per_tx, daily_limit, expiry_ts, &allowed_recipients)
}

/// Pays the owner of the recipient's token account. Only the agent may do so, only in
/// tokens of the mint that the vault is bound to, and only within the policy. `clock` is the time of the ledger, if it could be read.
pub fn execute_payment(
    program_id: &Pubkey,
    ctx: &mut ExecutePayment,
    amount: u64,
    clock: Option<i64>,
) -> (outcome: Result<(TokenTransfer, PaymentExecuted), InstructionError>)
    requires
        old(ctx).vault.policy.wf(),
    ensures
        match old(ctx).outcome(
            program_address(old(ctx).vault.seeds_for(old(ctx).vault.policy.owner), program_id@),
            token_address(old(ctx).vault.key, old(ctx).mint.key),
            amount,
            clock,
        ) {
            Ok((accounts, transfer, event)) => *final(ctx) == accounts && outcome == Ok::<
                (TokenTransfer, PaymentExecuted),
                InstructionError,
            >((transfer, event)),
            Err(error) => *final(ctx) == *old(ctx) && outcome == Err::<
                (TokenTransfer, PaymentExecuted),
                InstructionError,
            >(error),
        },
        outcome matches Ok((transfer, event)) ==> {
            &&& old(ctx).agent.key == old(ctx).vault.policy.agent
            &&& transfer.amount == amount
            &&& program_address(
                seq![
                    VAULT_SEED@,
                    old(ctx).vault.policy.owner@,
                    old(ctx).vault.policy.agent@,
                    old(ctx).vault.policy.token_mint@,
                    seq![old(ctx).vault.policy.bump],
                ],
                program_id@,
            ) == Some(transfer.authority@)
            &&& found_program_address(
                seq![old(ctx).vault.key@, TOKEN_PROGRAM_ID@, old(ctx).mint.key@],
                ASSOCIATED_TOKEN_PROGRAM_ID@,
            ) matches Some((address, _)) && address == transfer.from@
            &&& event.daily_remaining + final(ctx).vault.policy.amount_spent_today == old(
                ctx,
            ).vault.policy.daily_limit
        },
{
    proof {
        law_vault_seeds(ctx.vault.policy.signer_seeds(), ctx.vault, ctx.vault.policy.owner);
    }
    let vault_address = ctx.vault.address_for(&ctx.vault.policy.owner, program_id);
    let vault_tokens = associated_token_address(&ctx.vault.key, &ctx.mint.key);
    ctx.apply(&vault_address, &vault_tokens, amount, clock)
}

/// Takes the agent's right to spend away. Only the owner may do so, and it cannot be
/// undone: a revoked vault never pays again.
pub fn revoke_agent(program_id: &Pubkey, ctx: &mut RevokeAgent) -> (outcome: Result<
    Revoked,
    InstructionError,
>)
    ensures
        match old(ctx).outcome(
            program_address(old(ctx).vault.seeds_for(old(ctx).owner.key), program_id@),
        ) {
            Ok((accounts, event)) => *final(ctx) == accounts && outcome == Ok::<
                Revoked,
                InstructionError,
            >(event),
            Err(error) => *final(ctx) == *old(ctx) && outcome == Err::<Revoked, InstructionError>(
                error,
            ),
        },
        outcome is Ok <==> {
            &&& old(ctx).owner.is_writable
            &&& old(ctx).vault.is_writable
            &&& old(ctx).owner.key == old(ctx).vault.policy.owner
            &&& program_address(
                seq![
                    VAULT_SEED@,
                    old(ctx).owner.key@,
                    old(ctx).vault.policy.agent@,
                    old(ctx).vault.policy.token_mint@,
                    seq![old(ctx).vault.policy.bump],
                ],
                program_id@,
            ) == Some(old(ctx).vault.key@)
        },
        outcome is Ok ==> !final(ctx).vault.policy.is_active,
{
    proof {
        law_vault_seeds(ctx.vault.policy.signer_seeds(), ctx.vault, ctx.owner.key);
    }
    let vault_address = ctx.vault.address_for(&ctx.owner.key, program_id);
    ctx.apply(&vault_address)
}

/// Takes the remaining balance back to the owner's own token account. Only the owner
/// may do so, and only once the vault can no longer spend: when it is revoked, or
/// when it has expired at the time `clock` of the ledger, if that could be read.
pub fn withdraw_unused(program_id: &Pubkey, ctx: &WithdrawUnused, clock: Option<i64>) -> (outcome:
    Result<(TokenTransfer, Withdrawn), InstructionError>)
    ensures
        outcome == ctx.outcome(
            program_address(ctx.vault.seeds_for(ctx.owner.key), program_id@),
            token_address(ctx.vault.key, ctx.mint.key),
            token_address(ctx.owner.key, ctx.mint.key),
            clock,
        ),
        outcome matches Ok((transfer, _)) ==> {
            &&& transfer.amount == ctx.vault_token_account.amount
            &&& program_address(
                seq![
                    VAULT_SEED@,
                    ctx.owner.key@,
                    ctx.vault.policy.agent@,
                    ctx.vault.policy.token_mint@,
                    seq![ctx.vault.policy.bump],
                ],
                program_id@,
            ) == Some(transfer.authority@)
            &&& found_program_address(
                seq![ctx.vault.key@, TOKEN_PROGRAM_ID@, ctx.mint.key@],
                ASSOCIATED_TOKEN_PROGRAM_ID@,
            ) matches Some((address, _)) && address == transfer.from@
            &&& found_program_address(
                seq![ctx.owner.key@, TOKEN_PROGRAM_ID@, ctx.mint.key@],
                ASSOCIATED_TOKEN_PROGRAM_ID@,
            ) matches Some((address, _)) && address == transfer.to@
            &&& !ctx.vault.policy.is_active || clock->0 >= ctx.vault.policy.expiry_ts
        },
{
    proof {
        law_vault_seeds(ctx.vault.policy.signer_seeds(), ctx.vault, ctx.owner.key);
    }
    let vault_address = ctx.vault.address_for(&ctx.owner.key, program_id);
    let vault_tokens = associated_token_address(&ctx.vault.key, &ctx.mint.key);
    let owner_tokens = associated_token_address(&ctx.owner.key, &ctx.mint.key);
    ctx.apply(&vault_address, &vault_tokens, &owner_tokens, clock)
}

} // verus!
