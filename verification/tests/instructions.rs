use capkey::address::{associated_token_address, find_vault_address};
use capkey::{
    create_vault, execute_payment, fund_vault, revoke_agent, set_policy, withdraw_unused,
    CapkeyError, ConstraintError, CreateVault, ExecutePayment, FundVault, InstructionError, Mint,
    PaymentExecuted, Pubkey, RevokeAgent, Revoked, SetPolicy, Signer, TokenAccount, TokenTransfer,
    VaultAccount, VaultPolicy, WithdrawUnused, Withdrawn, DAY_SECONDS,
};

fn key(n: u8) -> Pubkey {
    Pubkey { bytes: [n; 32] }
}

const OWNER: u8 = 1;
const AGENT: u8 = 2;
const MINT: u8 = 3;
const PROGRAM: u8 = 4;
const RECIPIENT: u8 = 7;

fn rule<T>(error: CapkeyError) -> Result<T, InstructionError> {
    Err(InstructionError::Capkey(error))
}

fn constraint<T>(error: ConstraintError) -> Result<T, InstructionError> {
    Err(InstructionError::Constraint(error))
}

fn signer(n: u8) -> Signer {
    Signer { key: key(n), is_writable: true }
}

fn tokens(wallet: Pubkey, amount: u64) -> TokenAccount {
    tokens_of(MINT, wallet, amount)
}

fn tokens_of(mint: u8, wallet: Pubkey, amount: u64) -> TokenAccount {
    TokenAccount {
        key: associated_token_address(&wallet, &key(mint)).unwrap(),
        is_writable: true,
        mint: key(mint),
        owner: wallet,
        amount,
    }
}

fn vault_key() -> (Pubkey, u8) {
    find_vault_address(&key(OWNER), &key(AGENT), &key(MINT), &key(PROGRAM)).unwrap()
}

fn mint() -> Mint {
    Mint { key: key(MINT), is_writable: true }
}

fn create() -> CreateVault {
    let (address, _) = vault_key();
    CreateVault {
        owner: signer(OWNER),
        agent: signer(AGENT),
        vault: VaultAccount {
            key: address,
            is_writable: true,
            policy: VaultPolicy::new(&key(0), &key(0), &key(0), 0),
        },
        vault_in_use: false,
        vault_token_account: tokens(address, 0),
        vault_tokens_in_use: false,
        mint: mint(),
        owner_token_account: tokens(key(OWNER), 1_000),
    }
}

/// A vault with cap 100 for one payment and 150 for one day, expiry on day 10.
fn vault() -> VaultAccount {
    let mut ctx = create();
    create_vault(&key(PROGRAM), &mut ctx, 500).unwrap();
    let mut ctx = SetPolicy { owner: signer(OWNER), vault: ctx.vault };
    set_policy(&key(PROGRAM), &mut ctx, 100, 150, 10 * DAY_SECONDS, vec![key(RECIPIENT)]).unwrap();
    ctx.vault
}

fn fund() -> FundVault {
    let vault = vault();
    FundVault {
        owner: signer(OWNER),
        vault,
        vault_token_account: tokens(vault.key, 500),
        mint: mint(),
        owner_token_account: tokens(key(OWNER), 500),
    }
}

fn pay(vault: VaultAccount) -> ExecutePayment {
    ExecutePayment {
        vault,
        agent: signer(AGENT),
        vault_token_account: tokens(vault.key, 500),
        recipient_token_account: tokens(key(RECIPIENT), 0),
        mint: mint(),
    }
}

fn withdraw(vault: VaultAccount, balance: u64) -> WithdrawUnused {
    WithdrawUnused {
        owner: signer(OWNER),
        vault,
        vault_token_account: tokens(vault.key, balance),
        owner_token_account: tokens(key(OWNER), 0),
        mint: mint(),
    }
}

#[test]
fn create_binds_owner_agent_and_mint() {
    let mut ctx = create();
    let before = ctx;
    let transfer = create_vault(&key(PROGRAM), &mut ctx, 500).unwrap();
    let (address, bump) = vault_key();
    assert_eq!(
        transfer,
        TokenTransfer {
            from: before.owner_token_account.key,
            to: before.vault_token_account.key,
            authority: key(OWNER),
            amount: 500,
            signer: None,
        }
    );
    assert_eq!(ctx.vault.key, address);
    assert_eq!(
        ctx.vault.policy,
        VaultPolicy::new(&key(OWNER), &key(AGENT), &key(MINT), bump)
    );
    assert_eq!(CreateVault { vault: before.vault, ..ctx }, before);
}

#[test]
fn create_refuses_unfit_accounts() {
    let mut ctx = create();
    ctx.vault.key = key(9);
    ctx.owner.is_writable = false;
    let before = ctx;
    assert_eq!(
        create_vault(&key(PROGRAM), &mut ctx, 0),
        constraint(ConstraintError::ConstraintSeeds)
    );
    assert_eq!(ctx, before);

    let mut ctx = create();
    ctx.owner.is_writable = false;
    assert_eq!(create_vault(&key(PROGRAM), &mut ctx, 1), constraint(ConstraintError::ConstraintMut));
    let mut ctx = create();
    ctx.mint.is_writable = false;
    assert_eq!(create_vault(&key(PROGRAM), &mut ctx, 1), constraint(ConstraintError::ConstraintMut));
    let mut ctx = create();
    ctx.vault.is_writable = false;
    assert_eq!(create_vault(&key(PROGRAM), &mut ctx, 1), constraint(ConstraintError::ConstraintMut));
    let mut ctx = create();
    ctx.vault_token_account = tokens(key(9), 0);
    assert_eq!(
        create_vault(&key(PROGRAM), &mut ctx, 1),
        constraint(ConstraintError::ConstraintTokenOwner)
    );
    let mut ctx = create();
    ctx.vault_token_account.key = key(9);
    assert_eq!(
        create_vault(&key(PROGRAM), &mut ctx, 1),
        constraint(ConstraintError::ConstraintAssociated)
    );
    let mut ctx = create();
    ctx.owner_token_account.owner = key(9);
    assert_eq!(
        create_vault(&key(PROGRAM), &mut ctx, 1),
        constraint(ConstraintError::ConstraintTokenOwner)
    );
    let mut ctx = create();
    ctx.owner_token_account.key = key(9);
    assert_eq!(
        create_vault(&key(PROGRAM), &mut ctx, 1),
        constraint(ConstraintError::ConstraintAssociated)
    );
    let mut ctx = create();
    ctx.owner_token_account.is_writable = false;
    assert_eq!(create_vault(&key(PROGRAM), &mut ctx, 1), constraint(ConstraintError::ConstraintMut));
    let mut ctx = create();
    let before = ctx;
    assert_eq!(create_vault(&key(PROGRAM), &mut ctx, 0), rule(CapkeyError::ZeroAmount));
    assert_eq!(ctx, before);
}

#[test]
fn a_revoked_vault_is_not_created_anew() {
    let mut revoke = RevokeAgent { owner: signer(OWNER), vault: vault() };
    revoke_agent(&key(PROGRAM), &mut revoke).unwrap();
    let mut ctx = create();
    ctx.vault = revoke.vault;
    ctx.vault_in_use = true;
    let before = ctx;
    assert_eq!(create_vault(&key(PROGRAM), &mut ctx, 5), Err(InstructionError::AddressInUse));
    assert_eq!(ctx, before);
    assert!(!ctx.vault.policy.is_active);

    let mut ctx = create();
    ctx.vault_tokens_in_use = true;
    assert_eq!(create_vault(&key(PROGRAM), &mut ctx, 5), Err(InstructionError::AddressInUse));
}

#[test]
fn create_is_tied_to_the_program() {
    let mut ctx = create();
    assert_eq!(create_vault(&key(5), &mut ctx, 1), constraint(ConstraintError::ConstraintSeeds));
}

#[test]
fn fund_moves_tokens_from_owner_to_vault() {
    let ctx = fund();
    assert_eq!(
        fund_vault(&key(PROGRAM), &ctx, 25),
        Ok(TokenTransfer {
            from: ctx.owner_token_account.key,
            to: ctx.vault_token_account.key,
            authority: key(OWNER),
            amount: 25,
            signer: None,
        })
    );
    assert_eq!(fund_vault(&key(PROGRAM), &ctx, 0), rule(CapkeyError::ZeroAmount));
}

#[test]
fn fund_refuses_unfit_accounts() {
    let id = key(PROGRAM);
    let mut ctx = fund();
    ctx.owner = signer(9);
    assert_eq!(fund_vault(&id, &ctx, 1), constraint(ConstraintError::ConstraintSeeds));
    let mut ctx = fund();
    ctx.vault.policy.owner = key(9);
    assert_eq!(fund_vault(&id, &ctx, 1), constraint(ConstraintError::ConstraintHasOne));
    let mut ctx = fund();
    ctx.vault.is_writable = false;
    assert_eq!(fund_vault(&id, &ctx, 1), constraint(ConstraintError::ConstraintMut));
    let mut ctx = fund();
    ctx.owner.is_writable = false;
    assert_eq!(fund_vault(&id, &ctx, 1), constraint(ConstraintError::ConstraintMut));
    let mut ctx = fund();
    ctx.vault_token_account = tokens(key(9), 0);
    assert_eq!(fund_vault(&id, &ctx, 1), constraint(ConstraintError::ConstraintTokenOwner));
    let mut ctx = fund();
    ctx.vault_token_account.key = key(9);
    assert_eq!(fund_vault(&id, &ctx, 1), constraint(ConstraintError::ConstraintAssociated));
    let mut ctx = fund();
    ctx.owner_token_account = tokens(key(9), 0);
    assert_eq!(fund_vault(&id, &ctx, 1), constraint(ConstraintError::ConstraintTokenOwner));
}

#[test]
fn only_the_owner_sets_policy() {
    let id = key(PROGRAM);
    let mut ctx = SetPolicy { owner: signer(AGENT), vault: vault() };
    let before = ctx;
    assert_eq!(
        set_policy(&id, &mut ctx, 1, 1, 1, vec![]),
        constraint(ConstraintError::ConstraintSeeds)
    );
    assert_eq!(ctx, before);
    let mut ctx = SetPolicy { owner: signer(OWNER), vault: vault() };
    let four = vec![key(1), key(2), key(3), key(4)];
    assert_eq!(set_policy(&id, &mut ctx, 2, 1, 1, four), rule(CapkeyError::TooManyRecipients));
    assert_eq!(
        set_policy(&id, &mut ctx, 2, 1, 1, vec![]),
        rule(CapkeyError::PolicyInconsistent)
    );
    assert_eq!(set_policy(&id, &mut ctx, 1, 2, 3, vec![key(6)]), Ok(()));
    assert_eq!(ctx.vault.policy.max_per_tx, 1);
    assert_eq!(ctx.vault.policy.daily_limit, 2);
    assert_eq!(ctx.vault.policy.expiry_ts, 3);
    assert_eq!(ctx.vault.policy.recipient_count, 1);
    assert_eq!(ctx.vault.policy.allowed_recipients[0], key(6));
}

#[test]
fn payment_moves_tokens_and_is_announced() {
    let mut ctx = pay(vault());
    let before = ctx;
    let (transfer, event) = execute_payment(&key(PROGRAM), &mut ctx, 60, Some(DAY_SECONDS)).unwrap();
    assert_eq!(
        transfer,
        TokenTransfer {
            from: before.vault_token_account.key,
            to: before.recipient_token_account.key,
            authority: before.vault.key,
            amount: 60,
            signer: Some(before.vault.policy.seeds()),
        }
    );
    assert_eq!(transfer.signer.unwrap().address(&key(PROGRAM)), Some(transfer.authority));
    assert_eq!(
        event,
        PaymentExecuted {
            vault: before.vault.key,
            agent: key(AGENT),
            recipient: key(RECIPIENT),
            amount: 60,
            daily_remaining: 90,
        }
    );
    assert_eq!(ctx.vault.policy.amount_spent_today, 60);
    assert_eq!(ctx.vault.policy.last_reset_day, 1);
}

#[test]
fn payment_refuses_unfit_accounts() {
    let id = key(PROGRAM);
    let now = Some(0);
    let mut ctx = pay(vault());
    ctx.agent = signer(OWNER);
    let before = ctx;
    assert_eq!(execute_payment(&id, &mut ctx, 1, now), rule(CapkeyError::WrongAgent));
    assert_eq!(ctx, before);
    let mut ctx = pay(vault());
    ctx.agent.is_writable = false;
    assert!(execute_payment(&id, &mut ctx, 1, now).is_ok());
    let mut ctx = pay(vault());
    ctx.vault.policy.bump = ctx.vault.policy.bump.wrapping_add(1);
    assert_eq!(
        execute_payment(&id, &mut ctx, 1, now),
        constraint(ConstraintError::ConstraintSeeds)
    );
    let mut ctx = pay(vault());
    ctx.vault.is_writable = false;
    assert_eq!(execute_payment(&id, &mut ctx, 1, now), constraint(ConstraintError::ConstraintMut));
    let mut ctx = pay(vault());
    ctx.vault_token_account.key = key(9);
    assert_eq!(
        execute_payment(&id, &mut ctx, 1, now),
        constraint(ConstraintError::ConstraintAssociated)
    );
    let mut ctx = pay(vault());
    ctx.recipient_token_account.is_writable = false;
    assert_eq!(execute_payment(&id, &mut ctx, 1, now), constraint(ConstraintError::ConstraintMut));
    let mut ctx = pay(vault());
    ctx.recipient_token_account.mint = key(9);
    assert_eq!(execute_payment(&id, &mut ctx, 0, now), rule(CapkeyError::RecipientNotAllowed));
}

#[test]
fn budget_is_in_the_bound_mint() {
    let id = key(PROGRAM);
    let other: u8 = 6;
    let mut ctx = pay(vault());
    ctx.mint.key = key(other);
    ctx.vault_token_account = tokens_of(other, ctx.vault.key, 500);
    ctx.recipient_token_account = tokens_of(other, key(RECIPIENT), 0);
    let before = ctx;
    assert_eq!(
        execute_payment(&id, &mut ctx, 1, Some(0)),
        constraint(ConstraintError::ConstraintTokenMint)
    );
    assert_eq!(ctx, before);

    let mut ctx = fund();
    ctx.mint.key = key(other);
    ctx.vault_token_account = tokens_of(other, ctx.vault.key, 0);
    ctx.owner_token_account = tokens_of(other, key(OWNER), 500);
    assert_eq!(fund_vault(&id, &ctx, 1), constraint(ConstraintError::ConstraintTokenMint));

    let mut ctx = withdraw(vault(), 0);
    ctx.mint.key = key(other);
    ctx.vault_token_account = tokens_of(other, ctx.vault.key, 9);
    ctx.owner_token_account = tokens_of(other, key(OWNER), 0);
    let (transfer, _) = withdraw_unused(&id, &ctx, Some(i64::MAX)).unwrap();
    assert_eq!((transfer.amount, transfer.to), (9, ctx.owner_token_account.key));
}

#[test]
fn payment_may_go_to_any_account_of_the_recipient() {
    let mut ctx = pay(vault());
    ctx.recipient_token_account.key = key(99);
    let (transfer, _) = execute_payment(&key(PROGRAM), &mut ctx, 1, Some(0)).unwrap();
    assert_eq!(transfer.to, key(99));
}

#[test]
fn revocation_and_withdrawal_are_for_the_owner() {
    let id = key(PROGRAM);
    let mut ctx = RevokeAgent { owner: signer(AGENT), vault: vault() };
    assert_eq!(revoke_agent(&id, &mut ctx), constraint(ConstraintError::ConstraintSeeds));
    assert!(ctx.vault.policy.is_active);
    let mut ctx = withdraw(vault(), 5);
    ctx.owner = signer(AGENT);
    assert_eq!(
        withdraw_unused(&id, &ctx, Some(i64::MAX)),
        constraint(ConstraintError::ConstraintSeeds)
    );
    let mut ctx = withdraw(vault(), 5);
    ctx.owner_token_account = tokens(key(AGENT), 0);
    assert_eq!(
        withdraw_unused(&id, &ctx, Some(i64::MAX)),
        constraint(ConstraintError::ConstraintTokenOwner)
    );
}

#[test]
fn withdrawal_takes_the_whole_balance_after_expiry() {
    let id = key(PROGRAM);
    let ctx = withdraw(vault(), 440);
    assert_eq!(withdraw_unused(&id, &ctx, None), Err(InstructionError::ClockUnavailable));
    assert_eq!(
        withdraw_unused(&id, &ctx, Some(10 * DAY_SECONDS - 1)),
        rule(CapkeyError::VaultStillActive)
    );
    let (transfer, event) = withdraw_unused(&id, &ctx, Some(10 * DAY_SECONDS)).unwrap();
    assert_eq!(
        transfer,
        TokenTransfer {
            from: ctx.vault_token_account.key,
            to: ctx.owner_token_account.key,
            authority: ctx.vault.key,
            amount: 440,
            signer: Some(ctx.vault.policy.seeds()),
        }
    );
    assert_eq!(transfer.signer.unwrap().address(&id), Some(transfer.authority));
    assert_eq!(event, Withdrawn { vault: ctx.vault.key, owner: key(OWNER), amount: 440 });
    assert_eq!(
        withdraw_unused(&id, &withdraw(vault(), 0), Some(10 * DAY_SECONDS)),
        rule(CapkeyError::NothingToWithdraw)
    );
}

#[test]
fn a_vault_from_funding_to_recovery() {
    let id = key(PROGRAM);
    let now = Some(5 * DAY_SECONDS);
    assert!(fund_vault(&id, &fund(), 100).is_ok());

    let mut ctx = pay(vault());
    let (transfer, event) = execute_payment(&id, &mut ctx, 100, now).unwrap();
    assert_eq!((transfer.amount, event.daily_remaining), (100, 50));
    let paid = ctx.vault;

    assert_eq!(execute_payment(&id, &mut ctx, 101, now), rule(CapkeyError::ExceedsMaxPerTx));
    assert_eq!(execute_payment(&id, &mut ctx, 51, now), rule(CapkeyError::ExceedsDailyLimit));
    ctx.recipient_token_account = tokens(key(8), 0);
    assert_eq!(execute_payment(&id, &mut ctx, 10, now), rule(CapkeyError::RecipientNotAllowed));
    assert_eq!(ctx.vault, paid);

    let mut revoke = RevokeAgent { owner: signer(OWNER), vault: paid };
    assert_eq!(revoke_agent(&id, &mut revoke), Ok(Revoked { vault: paid.key }));
    assert!(!revoke.vault.policy.is_active);

    let mut ctx = pay(revoke.vault);
    assert_eq!(execute_payment(&id, &mut ctx, 10, now), rule(CapkeyError::VaultRevoked));

    let ctx = withdraw(revoke.vault, 500);
    let (transfer, _) = withdraw_unused(&id, &ctx, now).unwrap();
    assert_eq!((transfer.amount, transfer.to), (500, ctx.owner_token_account.key));
}
