//! What each operation does, said of its inputs and its results: on which requests it
//! succeeds, how it answers every other, and what it then changes, asks for and
//! announces.
//!
//! The faults that an instruction can find are listed in the order in which it looks
//! for them. Each is reported when it is there and none before it is.
use vstd::prelude::*;
use crate::accounts::{
    CreateVault, ExecutePayment, FundVault, RevokeAgent, SetPolicy, Signer, TokenAccount,
    VaultAccount, WithdrawUnused,
};
use crate::address::{
    first_address, found_bytes, found_program_address, lemma_first_address, program_address,
    token_address, vault_seeds, VaultSeeds, ASSOCIATED_TOKEN_PROGRAM_ID, TOKEN_PROGRAM_ID,
    VAULT_SEED,
};
use crate::error::{CapkeyError, ConstraintError, InstructionError};
use crate::event::{PaymentExecuted, Revoked, TokenTransfer, Withdrawn};
use crate::instructions::address_of;
use crate::pubkey::{key_bytes, zero_key, Pubkey};
use crate::vault::{day_of, VaultPolicy};

verus! {

/// A payment is permitted exactly when the amount is positive, the vault is active and
/// not expired, the amount is within the cap for one transaction, what was spent on the
/// day and the amount are together within the daily limit, and the recipient is in one
/// of the slots that count. Otherwise the first of these that fails is the answer.
pub proof fn law_payment_answers(
    v: VaultPolicy,
    amount: u64,
    now: i64,
    day: int,
    recipient: Pubkey,
)
    requires
        v.recipient_count <= 3,
        day * 86_400 <= now < day * 86_400 + 86_400,
    ensures
        ({
            let answer = v.payment_error(amount, Some(now), recipient);
            let spent: int = if v.last_reset_day == day {
                v.amount_spent_today as int
            } else {
                0
            };
            let approved = exists|i: int|
                0 <= i < v.recipient_count && #[trigger] v.allowed_recipients@[i] == recipient;
            let alive = amount > 0 && v.is_active;
            let in_time = alive && now < v.expiry_ts;
            let small = in_time && amount <= v.max_per_tx;
            let affordable = small && spent + amount <= v.daily_limit;
            &&& answer is None <==> affordable && approved
            &&& amount == 0 ==> answer == Some(InstructionError::Capkey(CapkeyError::ZeroAmount))
            &&& amount > 0 && !v.is_active ==> answer == Some(
                InstructionError::Capkey(CapkeyError::VaultRevoked),
            )
            &&& alive && now >= v.expiry_ts ==> answer == Some(
                InstructionError::Capkey(CapkeyError::VaultExpired),
            )
            &&& in_time && amount > v.max_per_tx ==> answer == Some(
                InstructionError::Capkey(CapkeyError::ExceedsMaxPerTx),
            )
            &&& small && spent + amount > v.daily_limit ==> answer == Some(
                InstructionError::Capkey(CapkeyError::ExceedsDailyLimit),
            )
            &&& affordable && !approved ==> answer == Some(
                InstructionError::Capkey(CapkeyError::RecipientNotAllowed),
            )
        }),
{
    lemma_day(now, day);
    lemma_approved(v, recipient);
}

/// Without the time a payment is never permitted. A zero amount and a revoked vault are
/// reported as such; otherwise the answer is that the time is missing.
pub proof fn law_payment_needs_the_time(v: VaultPolicy, amount: u64, recipient: Pubkey)
    ensures
        ({
            let answer = v.payment_error(amount, None, recipient);
            &&& amount == 0 ==> answer == Some(InstructionError::Capkey(CapkeyError::ZeroAmount))
            &&& amount > 0 && !v.is_active ==> answer == Some(
                InstructionError::Capkey(CapkeyError::VaultRevoked),
            )
            &&& amount > 0 && v.is_active ==> answer == Some(InstructionError::ClockUnavailable)
        }),
{
}

/// The day of a time is the one that it lies in.
proof fn lemma_day(now: i64, day: int)
    requires
        day * 86_400 <= now < day * 86_400 + 86_400,
    ensures
        day_of(now) == day,
{
}

/// To be on the allowlist is to be in one of the slots that count.
proof fn lemma_approved(v: VaultPolicy, recipient: Pubkey)
    requires
        v.recipient_count <= 3,
    ensures
        v.allowlist().contains(recipient) <==> exists|i: int|
            0 <= i < v.recipient_count && #[trigger] v.allowed_recipients@[i] == recipient,
{
    let list = v.allowlist();
    if exists|i: int|
        0 <= i < v.recipient_count && #[trigger] v.allowed_recipients@[i] == recipient {
        let i = choose|i: int|
            0 <= i < v.recipient_count && #[trigger] v.allowed_recipients@[i] == recipient;
        assert(list[i] == recipient);
    }
    if list.contains(recipient) {
        let i = choose|i: int| 0 <= i < list.len() && list[i] == recipient;
        assert(v.allowed_recipients@[i] == recipient);
    }
}

/// The allowlist holds the keys of the slots that count, in their order.
pub proof fn law_allowlist_is_the_counted_slots(v: VaultPolicy, recipient: Pubkey)
    requires
        v.recipient_count <= 3,
    ensures
        v.allowlist().len() == v.recipient_count,
        forall|i: int|
            0 <= i < v.recipient_count ==> v.allowlist()[i] == #[trigger] v.allowed_recipients@[i],
        v.allowlist().contains(recipient) <==> exists|i: int|
            0 <= i < v.recipient_count && #[trigger] v.allowed_recipients@[i] == recipient,
{
    lemma_approved(v, recipient);
}

/// A payment that is permitted counts its amount on top of what was spent on its day,
/// and on top of nothing if the last payment was on another day. It moves the counter to
/// its day and touches nothing else.
pub proof fn law_payment_is_counted(v: VaultPolicy, amount: u64, now: i64, day: int)
    requires
        day * 86_400 <= now < day * 86_400 + 86_400,
        amount + (if v.last_reset_day == day {
            v.amount_spent_today as int
        } else {
            0
        }) <= u64::MAX,
    ensures
        ({
            let after = v.after_payment(amount, now);
            &&& v.last_reset_day == day ==> after.amount_spent_today - v.amount_spent_today
                == amount
            &&& v.last_reset_day != day ==> after.amount_spent_today == amount
            &&& after.last_reset_day == day
            &&& same_bindings(v, after)
            &&& same_envelope(v, after)
            &&& after.is_active == v.is_active
        }),
{
    lemma_day(now, day);
}

/// Two states of a vault agree on whom and what it is bound to.
pub open spec fn same_bindings(v: VaultPolicy, w: VaultPolicy) -> bool {
    &&& w.owner == v.owner
    &&& w.agent == v.agent
    &&& w.token_mint == v.token_mint
    &&& w.bump == v.bump
}

/// Two states of a vault agree on its spending envelope.
pub open spec fn same_envelope(v: VaultPolicy, w: VaultPolicy) -> bool {
    &&& w.allowed_recipients == v.allowed_recipients
    &&& w.recipient_count == v.recipient_count
    &&& w.max_per_tx == v.max_per_tx
    &&& w.daily_limit == v.daily_limit
    &&& w.expiry_ts == v.expiry_ts
}

/// Two states of a vault agree on what was spent and when.
pub open spec fn same_spending(v: VaultPolicy, w: VaultPolicy) -> bool {
    &&& w.amount_spent_today == v.amount_spent_today
    &&& w.last_reset_day == v.last_reset_day
}

/// A withdrawal is permitted exactly when the time is known, the vault is revoked or has
/// expired by then, and it holds something. Otherwise the first of these that fails is
/// the answer, whatever the policy says besides.
pub proof fn law_withdrawal_answers(v: VaultPolicy, clock: Option<i64>, balance: u64)
    ensures
        ({
            let answer = v.withdrawal_error(clock, balance);
            let ended = clock is Some && (!v.is_active || clock->0 >= v.expiry_ts);
            &&& answer is None <==> ended && balance > 0
            &&& clock is None ==> answer == Some(InstructionError::ClockUnavailable)
            &&& clock is Some && !ended ==> answer == Some(
                InstructionError::Capkey(CapkeyError::VaultStillActive),
            )
            &&& ended && balance == 0 ==> answer == Some(
                InstructionError::Capkey(CapkeyError::NothingToWithdraw),
            )
        }),
{
}

/// A policy is accepted exactly when it lists at most three recipients and its cap for
/// one transaction is within its daily limit. Too many recipients are reported first.
pub proof fn law_policy_answers(max_per_tx: u64, daily_limit: u64, recipients: Seq<Pubkey>)
    ensures
        ({
            let answer = VaultPolicy::policy_error(max_per_tx, daily_limit, recipients);
            &&& answer is None <==> recipients.len() <= 3 && max_per_tx <= daily_limit
            &&& recipients.len() > 3 ==> answer == Some(CapkeyError::TooManyRecipients)
            &&& recipients.len() <= 3 && max_per_tx > daily_limit ==> answer == Some(
                CapkeyError::PolicyInconsistent,
            )
        }),
{
}

/// A new policy replaces the envelope and nothing else. The slots hold the new recipients
/// in their order; slots past them keep their key but do not count.
pub proof fn law_policy_replaces_the_envelope(
    v: VaultPolicy,
    max_per_tx: u64,
    daily_limit: u64,
    expiry_ts: i64,
    recipients: Seq<Pubkey>,
)
    requires
        recipients.len() <= 3,
    ensures
        ({
            let after = v.after_policy(max_per_tx, daily_limit, expiry_ts, recipients);
            &&& after.max_per_tx == max_per_tx
            &&& after.daily_limit == daily_limit
            &&& after.expiry_ts == expiry_ts
            &&& after.recipient_count == recipients.len()
            &&& forall|i: int|
                0 <= i < recipients.len() ==> #[trigger] after.allowed_recipients@[i]
                    == recipients[i]
            &&& forall|i: int|
                recipients.len() <= i < 3 ==> #[trigger] after.allowed_recipients@[i]
                    == v.allowed_recipients@[i]
            &&& same_bindings(v, after)
            &&& same_spending(v, after)
            &&& after.is_active == v.is_active
        }),
{
}

/// A revocation switches the vault off and touches nothing else.
pub proof fn law_revocation_switches_off(v: VaultPolicy)
    ensures
        ({
            let after = v.after_revocation();
            &&& !after.is_active
            &&& same_bindings(v, after)
            &&& same_envelope(v, after)
            &&& same_spending(v, after)
        }),
{
}

/// A new vault is bound to the given keys, is active and never expires, and has nothing
/// to spend, nobody to pay and nothing spent. Its slots hold keys of zero bytes.
pub proof fn law_new_vault(owner: Pubkey, agent: Pubkey, token_mint: Pubkey, bump: u8)
    ensures
        ({
            let v = VaultPolicy::fresh(owner, agent, token_mint, bump);
            &&& v.owner == owner
            &&& v.agent == agent
            &&& v.token_mint == token_mint
            &&& v.bump == bump
            &&& v.is_active
            &&& v.expiry_ts == 0x7fff_ffff_ffff_ffff
            &&& v.max_per_tx == 0
            &&& v.daily_limit == 0
            &&& v.recipient_count == 0
            &&& v.amount_spent_today == 0
            &&& v.last_reset_day == 0
            &&& forall|i: int, j: int|
                0 <= i < 3 && 0 <= j < 32 ==> #[trigger] v.allowed_recipients@[i]@[j] == 0
        }),
{
    assert(forall|j: int| 0 <= j < 32 ==> zero_key()@[j] == 0);
}

/// A vault signs with the keys that it is bound to and with its bump.
pub proof fn law_signer_seeds(v: VaultPolicy)
    ensures
        v.signer_seeds().owner == v.owner,
        v.signer_seeds().agent == v.agent,
        v.signer_seeds().token_mint == v.token_mint,
        v.signer_seeds().bump@ == seq![v.bump],
{
    assert(v.signer_seeds().bump@ =~= seq![v.bump]);
}

/// The seeds of a vault are five byte strings: the ASCII text `capkey-vault`, the owner,
/// the agent, the mint, and the bump.
pub proof fn law_vault_seeds(seeds: VaultSeeds, account: VaultAccount, owner: Pubkey)
    ensures
        seeds.seeds() == seq![
            VAULT_SEED@,
            seeds.owner@,
            seeds.agent@,
            seeds.token_mint@,
            seeds.bump@,
        ],
        vault_seeds(seeds.owner, seeds.agent, seeds.token_mint) == seq![
            VAULT_SEED@,
            seeds.owner@,
            seeds.agent@,
            seeds.token_mint@,
        ],
        account.seeds_for(owner) == seq![
            VAULT_SEED@,
            owner@,
            account.policy.agent@,
            account.policy.token_mint@,
            seq![account.policy.bump],
        ],
        VAULT_SEED@ == seq![
            0x63u8,
            0x61u8,
            0x70u8,
            0x6bu8,
            0x65u8,
            0x79u8,
            0x2du8,
            0x76u8,
            0x61u8,
            0x75u8,
            0x6cu8,
            0x74u8,
        ],
{
    assert(seeds.seeds() =~= seq![
        VAULT_SEED@,
        seeds.owner@,
        seeds.agent@,
        seeds.token_mint@,
        seeds.bump@,
    ]);
    assert(account.seeds_for(owner) =~= seq![
        VAULT_SEED@,
        owner@,
        account.policy.agent@,
        account.policy.token_mint@,
        seq![account.policy.bump],
    ]);
}

/// A search that finds nothing has found no bump to lead to an address.
proof fn lemma_nothing_found(seeds: Seq<Seq<u8>>, program_id: Seq<u8>, bump: nat)
    requires
        bump <= u8::MAX,
        first_address(seeds, program_id, bump) is None,
    ensures
        forall|b: u8|
            0 < b <= bump ==> #[trigger] program_address(seeds.push(seq![b]), program_id) is None,
    decreases bump,
{
    if bump > 0 {
        lemma_nothing_found(seeds, program_id, (bump - 1) as nat);
    }
}

/// A search finds an address exactly when some bump from one on leads to one, and then it
/// finds that of the highest such bump, and the bump.
pub proof fn law_search_finds_the_highest_bump(
    seeds: Seq<Seq<u8>>,
    program_id: Seq<u8>,
    address: Seq<u8>,
    bump: u8,
)
    ensures
        found_program_address(seeds, program_id) == Some((address, bump)) <==> {
            &&& bump > 0
            &&& program_address(seeds.push(seq![bump]), program_id) == Some(address)
            &&& forall|higher: u8|
                higher > bump ==> #[trigger] program_address(
                    seeds.push(seq![higher]),
                    program_id,
                ) is None
        },
        found_program_address(seeds, program_id) is None <==> forall|b: u8|
            b > 0 ==> #[trigger] program_address(seeds.push(seq![b]), program_id) is None,
{
    lemma_first_address(seeds, program_id, u8::MAX as nat);
    match found_program_address(seeds, program_id) {
        Some((a, b)) => {
            assert(program_address(seeds.push(seq![b]), program_id) == Some(a));
        },
        None => {
            lemma_nothing_found(seeds, program_id, u8::MAX as nat);
        },
    }
}

/// The token account of a wallet for a mint is at the address of the associated token
/// program with the highest bump for the wallet, the token program and the mint.
pub proof fn law_token_address(
    wallet: Pubkey,
    mint: Pubkey,
    seeds: Seq<Seq<u8>>,
    address: Seq<u8>,
    bump: u8,
)
    requires
        seeds == seq![wallet@, TOKEN_PROGRAM_ID@, mint@],
        bump > 0,
        forall|higher: u8|
            higher > bump ==> #[trigger] program_address(
                seeds.push(seq![higher]),
                ASSOCIATED_TOKEN_PROGRAM_ID@,
            ) is None,
    ensures
        program_address(seeds.push(seq![bump]), ASSOCIATED_TOKEN_PROGRAM_ID@) == Some(address)
            ==> token_address(wallet, mint) == Some(address),
        bump == 1 && program_address(seeds.push(seq![bump]), ASSOCIATED_TOKEN_PROGRAM_ID@) is None
            ==> token_address(wallet, mint) is None,
{
    let id = ASSOCIATED_TOKEN_PROGRAM_ID@;
    law_search_finds_the_highest_bump(seeds, id, address, bump);
}

/// An optional key is read as its bytes, and nothing as nothing.
pub proof fn law_keys_are_read_as_bytes(key: Pubkey, bump: u8)
    ensures
        key@.len() == 32,
        key_bytes(Some(key)) == Some(key@),
        key_bytes(None) == None::<Seq<u8>>,
        found_bytes(Some((key, bump))) == Some((key@, bump)),
        found_bytes(None) == None::<(Seq<u8>, u8)>,
        address_of(Some((key@, bump))) == Some(key@),
        address_of(None) == None::<Seq<u8>>,
{
}

/// An account is the token account of a wallet exactly when it belongs to the wallet, is
/// at the address, and is writable. Otherwise the first of these that fails is reported.
pub proof fn law_token_account_answers(
    account: TokenAccount,
    authority: Pubkey,
    address: Option<Seq<u8>>,
)
    ensures
        ({
            let answer = account.associated_error(authority, address);
            let owned = account.owner == authority;
            let placed = owned && address == Some(account.key@);
            &&& answer is None <==> placed && account.is_writable
            &&& !owned ==> answer == Some(
                InstructionError::Constraint(ConstraintError::ConstraintTokenOwner),
            )
            &&& owned && !placed ==> answer == Some(
                InstructionError::Constraint(ConstraintError::ConstraintAssociated),
            )
            &&& placed && !account.is_writable ==> answer == Some(
                InstructionError::Constraint(ConstraintError::ConstraintMut),
            )
        }),
{
}

/// A signer may act as the owner of a vault exactly when the signer's account and the
/// vault's are writable, the vault is at the address, and the signer is the owner that it
/// names. Nothing else in the vault matters. Otherwise the first that fails is reported.
pub proof fn law_owner_answers(vault: VaultAccount, owner: Signer, address: Option<Seq<u8>>)
    ensures
        ({
            let answer = vault.owner_error(owner, address);
            let placed = owner.is_writable && address == Some(vault.key@);
            &&& answer is None <==> placed && vault.is_writable && vault.policy.owner == owner.key
            &&& !owner.is_writable ==> answer == Some(
                InstructionError::Constraint(ConstraintError::ConstraintMut),
            )
            &&& owner.is_writable && !placed ==> answer == Some(
                InstructionError::Constraint(ConstraintError::ConstraintSeeds),
            )
            &&& placed && !vault.is_writable ==> answer == Some(
                InstructionError::Constraint(ConstraintError::ConstraintMut),
            )
            &&& placed && vault.is_writable && vault.policy.owner != owner.key ==> answer == Some(
                InstructionError::Constraint(ConstraintError::ConstraintHasOne),
            )
        }),
{
}

/// A vault is created exactly when it is at the address that was found and that address
/// is free, its token account is the vault's own and new, the owner's is the owner's, the
/// accounts that change are writable, and the deposit is positive.
pub proof fn law_create_vault_answers(
    ctx: CreateVault,
    found: Option<(Seq<u8>, u8)>,
    vault_tokens: Option<Seq<u8>>,
    owner_tokens: Option<Seq<u8>>,
    initial_deposit: u64,
)
    ensures
        ({
            let answer = ctx.outcome(found, vault_tokens, owner_tokens, initial_deposit);
            let placed = found is Some && (found->0).0 == ctx.vault.key@;
            let free = placed && !ctx.vault_in_use;
            let writable = free && ctx.vault.is_writable;
            let target_owned = writable && ctx.vault_token_account.owner == ctx.vault.key;
            let target_placed = target_owned && vault_tokens == Some(ctx.vault_token_account.key@);
            let target_writable = target_placed && ctx.vault_token_account.is_writable;
            let target_free = target_writable && !ctx.vault_tokens_in_use;
            let payer = target_free && ctx.owner.is_writable;
            let minted = payer && ctx.mint.is_writable;
            let wallet_owned = minted && ctx.owner_token_account.owner == ctx.owner.key;
            let wallet_placed = wallet_owned && owner_tokens == Some(ctx.owner_token_account.key@);
            let wallet_writable = wallet_placed && ctx.owner_token_account.is_writable;
            let funded = wallet_writable && initial_deposit > 0;
            &&& answer is Ok <==> funded
            &&& !placed ==> answer == Err::<
                (CreateVault, TokenTransfer),
                InstructionError,
            >(InstructionError::Constraint(ConstraintError::ConstraintSeeds))
            &&& placed && !free ==> answer == Err::<
                (CreateVault, TokenTransfer),
                InstructionError,
            >(InstructionError::AddressInUse)
            &&& free && !writable ==> answer == Err::<
                (CreateVault, TokenTransfer),
                InstructionError,
            >(InstructionError::Constraint(ConstraintError::ConstraintMut))
            &&& writable && !target_owned ==> answer == Err::<
                (CreateVault, TokenTransfer),
                InstructionError,
            >(InstructionError::Constraint(ConstraintError::ConstraintTokenOwner))
            &&& target_owned && !target_placed ==> answer == Err::<
                (CreateVault, TokenTransfer),
                InstructionError,
            >(InstructionError::Constraint(ConstraintError::ConstraintAssociated))
            &&& target_placed && !target_writable ==> answer == Err::<
                (CreateVault, TokenTransfer),
                InstructionError,
            >(InstructionError::Constraint(ConstraintError::ConstraintMut))
            &&& target_writable && !target_free ==> answer == Err::<
                (CreateVault, TokenTransfer),
                InstructionError,
            >(InstructionError::AddressInUse)
            &&& target_free && !payer ==> answer == Err::<
                (CreateVault, TokenTransfer),
                InstructionError,
            >(InstructionError::Constraint(ConstraintError::ConstraintMut))
            &&& payer && !minted ==> answer == Err::<
                (CreateVault, TokenTransfer),
                InstructionError,
            >(InstructionError::Constraint(ConstraintError::ConstraintMut))
            &&& minted && !wallet_owned ==> answer == Err::<
                (CreateVault, TokenTransfer),
                InstructionError,
            >(InstructionError::Constraint(ConstraintError::ConstraintTokenOwner))
            &&& wallet_owned && !wallet_placed ==> answer == Err::<
                (CreateVault, TokenTransfer),
                InstructionError,
            >(InstructionError::Constraint(ConstraintError::ConstraintAssociated))
            &&& wallet_placed && !wallet_writable ==> answer == Err::<
                (CreateVault, TokenTransfer),
                InstructionError,
            >(InstructionError::Constraint(ConstraintError::ConstraintMut))
            &&& wallet_writable && !funded ==> answer == Err::<
                (CreateVault, TokenTransfer),
                InstructionError,
            >(InstructionError::Capkey(CapkeyError::ZeroAmount))
        }),
{
}

/// Creating a vault moves the whole deposit from the owner's tokens to the vault's, on the
/// owner's own authority. The new vault binds the owner, the agent and the mint of the
/// request, keeps the bump that was found, and is otherwise as a new vault is. No other
/// account is changed.
pub proof fn law_create_vault_effects(
    ctx: CreateVault,
    found: Option<(Seq<u8>, u8)>,
    vault_tokens: Option<Seq<u8>>,
    owner_tokens: Option<Seq<u8>>,
    initial_deposit: u64,
)
    ensures
        ctx.outcome(found, vault_tokens, owner_tokens, initial_deposit) matches Ok((after, transfer))
            ==> {
            let v = after.vault.policy;
            &&& transfer.amount == initial_deposit
            &&& transfer.from == ctx.owner_token_account.key
            &&& owner_tokens == Some(transfer.from@)
            &&& transfer.to == ctx.vault_token_account.key
            &&& vault_tokens == Some(transfer.to@)
            &&& transfer.authority == ctx.owner.key
            &&& transfer.signer is None
            &&& v.owner == ctx.owner.key
            &&& v.agent == ctx.agent.key
            &&& v.token_mint == ctx.mint.key
            &&& found == Some((after.vault.key@, v.bump))
            &&& v.is_active
            &&& v.expiry_ts == 0x7fff_ffff_ffff_ffff
            &&& v.max_per_tx == 0
            &&& v.daily_limit == 0
            &&& v.recipient_count == 0
            &&& v.amount_spent_today == 0
            &&& v.last_reset_day == 0
            &&& forall|i: int, j: int|
                0 <= i < 3 && 0 <= j < 32 ==> #[trigger] v.allowed_recipients@[i]@[j] == 0
            &&& after.vault.key == ctx.vault.key
            &&& after.vault.is_writable == ctx.vault.is_writable
            &&& after.vault_in_use == ctx.vault_in_use
            &&& after.vault_tokens_in_use == ctx.vault_tokens_in_use
            &&& after.owner == ctx.owner
            &&& after.agent == ctx.agent
            &&& after.mint == ctx.mint
            &&& after.vault_token_account == ctx.vault_token_account
            &&& after.owner_token_account == ctx.owner_token_account
        },
{
    assert(forall|j: int| 0 <= j < 32 ==> zero_key()@[j] == 0);
}

/// A vault is funded exactly when its owner asks for it, the vault and the two token
/// accounts are where they belong and writable, the mint is the one that the vault is
/// bound to, and the amount is positive.
pub proof fn law_fund_vault_answers(
    ctx: FundVault,
    vault_address: Option<Seq<u8>>,
    vault_tokens: Option<Seq<u8>>,
    owner_tokens: Option<Seq<u8>>,
    amount: u64,
)
    ensures
        ({
            let answer = ctx.outcome(vault_address, vault_tokens, owner_tokens, amount);
            let payer = ctx.owner.is_writable;
            let placed = payer && vault_address == Some(ctx.vault.key@);
            let writable = placed && ctx.vault.is_writable;
            let owned = writable && ctx.vault.policy.owner == ctx.owner.key;
            let target_owned = owned && ctx.vault_token_account.owner == ctx.vault.key;
            let target_placed = target_owned && vault_tokens == Some(ctx.vault_token_account.key@);
            let target_writable = target_placed && ctx.vault_token_account.is_writable;
            let wallet_owned = target_writable && ctx.owner_token_account.owner == ctx.owner.key;
            let wallet_placed = wallet_owned && owner_tokens == Some(ctx.owner_token_account.key@);
            let wallet_writable = wallet_placed && ctx.owner_token_account.is_writable;
            let bound = wallet_writable && ctx.mint.key == ctx.vault.policy.token_mint;
            let funded = bound && amount > 0;
            &&& answer is Ok <==> funded
            &&& !payer ==> answer == Err::<TokenTransfer, InstructionError>(
                InstructionError::Constraint(ConstraintError::ConstraintMut),
            )
            &&& payer && !placed ==> answer == Err::<TokenTransfer, InstructionError>(
                InstructionError::Constraint(ConstraintError::ConstraintSeeds),
            )
            &&& placed && !writable ==> answer == Err::<TokenTransfer, InstructionError>(
                InstructionError::Constraint(ConstraintError::ConstraintMut),
            )
            &&& writable && !owned ==> answer == Err::<TokenTransfer, InstructionError>(
                InstructionError::Constraint(ConstraintError::ConstraintHasOne),
            )
            &&& owned && !target_owned ==> answer == Err::<TokenTransfer, InstructionError>(
                InstructionError::Constraint(ConstraintError::ConstraintTokenOwner),
            )
            &&& target_owned && !target_placed ==> answer == Err::<TokenTransfer, InstructionError>(
                InstructionError::Constraint(ConstraintError::ConstraintAssociated),
            )
            &&& target_placed && !target_writable ==> answer == Err::<
                TokenTransfer,
                InstructionError,
            >(InstructionError::Constraint(ConstraintError::ConstraintMut))
            &&& target_writable && !wallet_owned ==> answer == Err::<
                TokenTransfer,
                InstructionError,
            >(InstructionError::Constraint(ConstraintError::ConstraintTokenOwner))
            &&& wallet_owned && !wallet_placed ==> answer == Err::<TokenTransfer, InstructionError>(
                InstructionError::Constraint(ConstraintError::ConstraintAssociated),
            )
            &&& wallet_placed && !wallet_writable ==> answer == Err::<
                TokenTransfer,
                InstructionError,
            >(InstructionError::Constraint(ConstraintError::ConstraintMut))
            &&& wallet_writable && !bound ==> answer == Err::<TokenTransfer, InstructionError>(
                InstructionError::Constraint(ConstraintError::ConstraintTokenMint),
            )
            &&& bound && !funded ==> answer == Err::<TokenTransfer, InstructionError>(
                InstructionError::Capkey(CapkeyError::ZeroAmount),
            )
        }),
{
}

/// Funding moves the whole amount from the owner's tokens to the vault's, on the owner's
/// own authority.
pub proof fn law_fund_vault_effects(
    ctx: FundVault,
    vault_address: Option<Seq<u8>>,
    vault_tokens: Option<Seq<u8>>,
    owner_tokens: Option<Seq<u8>>,
    amount: u64,
)
    ensures
        ctx.outcome(vault_address, vault_tokens, owner_tokens, amount) matches Ok(transfer) ==> {
            &&& transfer.amount == amount
            &&& transfer.from == ctx.owner_token_account.key
            &&& owner_tokens == Some(transfer.from@)
            &&& transfer.to == ctx.vault_token_account.key
            &&& vault_tokens == Some(transfer.to@)
            &&& transfer.authority == ctx.owner.key
            &&& transfer.signer is None
        },
{
}

/// A policy is set exactly when the vault's owner asks for it, the vault is where it
/// belongs, both accounts are writable, there are at most three recipients, and the cap
/// for one transaction is within the daily limit. What the vault held before is no reason
/// to refuse.
pub proof fn law_set_policy_answers(
    ctx: SetPolicy,
    vault_address: Option<Seq<u8>>,
    max_per_tx: u64,
    daily_limit: u64,
    expiry_ts: i64,
    allowed_recipients: Seq<Pubkey>,
)
    ensures
        ({
            let answer = ctx.outcome(
                vault_address,
                max_per_tx,
                daily_limit,
                expiry_ts,
                allowed_recipients,
            );
            let payer = ctx.owner.is_writable;
            let placed = payer && vault_address == Some(ctx.vault.key@);
            let writable = placed && ctx.vault.is_writable;
            let owned = writable && ctx.vault.policy.owner == ctx.owner.key;
            let few = owned && allowed_recipients.len() <= 3;
            let consistent = few && max_per_tx <= daily_limit;
            &&& answer is Ok <==> consistent
            &&& !payer ==> answer == Err::<SetPolicy, InstructionError>(
                InstructionError::Constraint(ConstraintError::ConstraintMut),
            )
            &&& payer && !placed ==> answer == Err::<SetPolicy, InstructionError>(
                InstructionError::Constraint(ConstraintError::ConstraintSeeds),
            )
            &&& placed && !writable ==> answer == Err::<SetPolicy, InstructionError>(
                InstructionError::Constraint(ConstraintError::ConstraintMut),
            )
            &&& writable && !owned ==> answer == Err::<SetPolicy, InstructionError>(
                InstructionError::Constraint(ConstraintError::ConstraintHasOne),
            )
            &&& owned && !few ==> answer == Err::<SetPolicy, InstructionError>(
                InstructionError::Capkey(CapkeyError::TooManyRecipients),
            )
            &&& few && !consistent ==> answer == Err::<SetPolicy, InstructionError>(
                InstructionError::Capkey(CapkeyError::PolicyInconsistent),
            )
        }),
{
}

/// Setting a policy puts the given caps, expiry and recipients in force and touches
/// nothing else.
pub proof fn law_set_policy_effects(
    ctx: SetPolicy,
    vault_address: Option<Seq<u8>>,
    max_per_tx: u64,
    daily_limit: u64,
    expiry_ts: i64,
    allowed_recipients: Seq<Pubkey>,
)
    ensures
        ctx.outcome(
            vault_address,
            max_per_tx,
            daily_limit,
            expiry_ts,
            allowed_recipients,
        ) matches Ok(after) ==> {
            let (v, w) = (ctx.vault.policy, after.vault.policy);
            &&& w.max_per_tx == max_per_tx
            &&& w.daily_limit == daily_limit
            &&& w.expiry_ts == expiry_ts
            &&& w.recipient_count == allowed_recipients.len()
            &&& forall|i: int|
                0 <= i < allowed_recipients.len() ==> #[trigger] w.allowed_recipients@[i]
                    == allowed_recipients[i]
            &&& forall|i: int|
                allowed_recipients.len() <= i < 3 ==> #[trigger] w.allowed_recipients@[i]
                    == v.allowed_recipients@[i]
            &&& same_bindings(v, w)
            &&& same_spending(v, w)
            &&& w.is_active == v.is_active
            &&& after.vault.key == ctx.vault.key
            &&& after.vault.is_writable == ctx.vault.is_writable
            &&& after.owner == ctx.owner
        },
{
}

/// A payment goes through exactly when the vault's agent asks for it, the vault and its
/// tokens are where they belong, the accounts that change are writable, the recipient's
/// account and the request are of the mint that the vault is bound to, and the policy
/// permits it: the amount is positive, the vault is active and not expired, the amount is
/// within the cap for one transaction and, with what was spent on the day, within the
/// daily limit, and the recipient is in one of the slots that count.
pub proof fn law_execute_payment_answers(
    ctx: ExecutePayment,
    vault_address: Option<Seq<u8>>,
    vault_tokens: Option<Seq<u8>>,
    amount: u64,
    clock: Option<i64>,
    day: int,
)
    requires
        ctx.vault.policy.recipient_count <= 3,
        clock matches Some(now) ==> day * 86_400 <= now < day * 86_400 + 86_400,
    ensures
        ({
            let answer = ctx.outcome(vault_address, vault_tokens, amount, clock);
            let spent: int = if ctx.vault.policy.last_reset_day == day {
                ctx.vault.policy.amount_spent_today as int
            } else {
                0
            };
            let approved = exists|i: int|
                0 <= i < ctx.vault.policy.recipient_count
                    && #[trigger] ctx.vault.policy.allowed_recipients@[i]
                    == ctx.recipient_token_account.owner;
            let placed = vault_address == Some(ctx.vault.key@);
            let writable = placed && ctx.vault.is_writable;
            let agreed = writable && ctx.vault.policy.agent == ctx.agent.key;
            let source_owned = agreed && ctx.vault_token_account.owner == ctx.vault.key;
            let source_placed = source_owned && vault_tokens == Some(ctx.vault_token_account.key@);
            let source_writable = source_placed && ctx.vault_token_account.is_writable;
            let target_writable = source_writable && ctx.recipient_token_account.is_writable;
            let target_minted = target_writable && ctx.recipient_token_account.mint == ctx.mint.key;
            let bound = target_minted && ctx.mint.key == ctx.vault.policy.token_mint;
            let positive = bound && amount > 0;
            let active = positive && ctx.vault.policy.is_active;
            let timed = active && clock is Some;
            let in_time = timed && clock->0 < ctx.vault.policy.expiry_ts;
            let small = in_time && amount <= ctx.vault.policy.max_per_tx;
            let affordable = small && spent + amount <= ctx.vault.policy.daily_limit;
            let allowed = affordable && approved;
            &&& answer is Ok <==> allowed
            &&& !placed ==> answer == Err::<
                (ExecutePayment, TokenTransfer, PaymentExecuted),
                InstructionError,
            >(InstructionError::Constraint(ConstraintError::ConstraintSeeds))
            &&& placed && !writable ==> answer == Err::<
                (ExecutePayment, TokenTransfer, PaymentExecuted),
                InstructionError,
            >(InstructionError::Constraint(ConstraintError::ConstraintMut))
            &&& writable && !agreed ==> answer == Err::<
                (ExecutePayment, TokenTransfer, PaymentExecuted),
                InstructionError,
            >(InstructionError::Capkey(CapkeyError::WrongAgent))
            &&& agreed && !source_owned ==> answer == Err::<
                (ExecutePayment, TokenTransfer, PaymentExecuted),
                InstructionError,
            >(InstructionError::Constraint(ConstraintError::ConstraintTokenOwner))
            &&& source_owned && !source_placed ==> answer == Err::<
                (ExecutePayment, TokenTransfer, PaymentExecuted),
                InstructionError,
            >(InstructionError::Constraint(ConstraintError::ConstraintAssociated))
            &&& source_placed && !source_writable ==> answer == Err::<
                (ExecutePayment, TokenTransfer, PaymentExecuted),
                InstructionError,
            >(InstructionError::Constraint(ConstraintError::ConstraintMut))
            &&& source_writable && !target_writable ==> answer == Err::<
                (ExecutePayment, TokenTransfer, PaymentExecuted),
                InstructionError,
            >(InstructionError::Constraint(ConstraintError::ConstraintMut))
            &&& target_writable && !target_minted ==> answer == Err::<
                (ExecutePayment, TokenTransfer, PaymentExecuted),
                InstructionError,
            >(InstructionError::Capkey(CapkeyError::RecipientNotAllowed))
            &&& target_minted && !bound ==> answer == Err::<
                (ExecutePayment, TokenTransfer, PaymentExecuted),
                InstructionError,
            >(InstructionError::Constraint(ConstraintError::ConstraintTokenMint))
            &&& bound && !positive ==> answer == Err::<
                (ExecutePayment, TokenTransfer, PaymentExecuted),
                InstructionError,
            >(InstructionError::Capkey(CapkeyError::ZeroAmount))
            &&& positive && !active ==> answer == Err::<
                (ExecutePayment, TokenTransfer, PaymentExecuted),
                InstructionError,
            >(InstructionError::Capkey(CapkeyError::VaultRevoked))
            &&& active && !timed ==> answer == Err::<
                (ExecutePayment, TokenTransfer, PaymentExecuted),
                InstructionError,
            >(InstructionError::ClockUnavailable)
            &&& timed && !in_time ==> answer == Err::<
                (ExecutePayment, TokenTransfer, PaymentExecuted),
                InstructionError,
            >(InstructionError::Capkey(CapkeyError::VaultExpired))
            &&& in_time && !small ==> answer == Err::<
                (ExecutePayment, TokenTransfer, PaymentExecuted),
                InstructionError,
            >(InstructionError::Capkey(CapkeyError::ExceedsMaxPerTx))
            &&& small && !affordable ==> answer == Err::<
                (ExecutePayment, TokenTransfer, PaymentExecuted),
                InstructionError,
            >(InstructionError::Capkey(CapkeyError::ExceedsDailyLimit))
            &&& affordable && !allowed ==> answer == Err::<
                (ExecutePayment, TokenTransfer, PaymentExecuted),
                InstructionError,
            >(InstructionError::Capkey(CapkeyError::RecipientNotAllowed))
        }),
{
    lemma_approved(ctx.vault.policy, ctx.recipient_token_account.owner);
    if let Some(now) = clock {
        lemma_day(now, day);
    }
}

/// A payment moves the whole amount from the vault's tokens to the recipient's account, on
/// the vault's authority and under the vault's seeds. It adds the amount to what is counted
/// as spent on its day and touches nothing else. What it announces as remaining, together
/// with all that is then counted as spent on the day, is the daily limit.
pub proof fn law_execute_payment_effects(
    ctx: ExecutePayment,
    vault_address: Option<Seq<u8>>,
    vault_tokens: Option<Seq<u8>>,
    amount: u64,
    now: i64,
    day: int,
)
    requires
        day * 86_400 <= now < day * 86_400 + 86_400,
    ensures
        ctx.outcome(vault_address, vault_tokens, amount, Some(now)) matches Ok(
            (after, transfer, event),
        ) ==> {
            let (v, w) = (ctx.vault.policy, after.vault.policy);
            let spent: int = if v.last_reset_day == day {
                v.amount_spent_today as int
            } else {
                0
            };
            &&& transfer.amount == amount
            &&& transfer.from == ctx.vault_token_account.key
            &&& vault_tokens == Some(transfer.from@)
            &&& transfer.to == ctx.recipient_token_account.key
            &&& transfer.authority == ctx.vault.key
            &&& transfer.signer matches Some(signer)
            &&& signer.owner == v.owner
            &&& signer.agent == v.agent
            &&& signer.token_mint == v.token_mint
            &&& signer.bump@ == seq![v.bump]
            &&& w.amount_spent_today == spent + amount
            &&& w.last_reset_day == day
            &&& same_bindings(v, w)
            &&& same_envelope(v, w)
            &&& w.is_active == v.is_active
            &&& event.daily_remaining + w.amount_spent_today == v.daily_limit
            &&& event.daily_remaining + spent + amount == v.daily_limit
            &&& event.vault == ctx.vault.key
            &&& event.agent == v.agent
            &&& event.recipient == ctx.recipient_token_account.owner
            &&& event.amount == amount
            &&& after.vault.key == ctx.vault.key
            &&& after.vault.is_writable == ctx.vault.is_writable
            &&& after.agent == ctx.agent
            &&& after.mint == ctx.mint
            &&& after.vault_token_account == ctx.vault_token_account
            &&& after.recipient_token_account == ctx.recipient_token_account
        },
{
    lemma_day(now, day);
    law_signer_seeds(ctx.vault.policy);
}

/// Two payments of one day that go through one after the other announce remainders that
/// differ by the second amount.
pub proof fn law_remainders_differ_by_the_amount(
    first: ExecutePayment,
    second: ExecutePayment,
    vault_address: Option<Seq<u8>>,
    vault_tokens: Option<Seq<u8>>,
    amount: u64,
    next_amount: u64,
    now: i64,
    later: i64,
    day: int,
)
    requires
        day * 86_400 <= now < day * 86_400 + 86_400,
        day * 86_400 <= later < day * 86_400 + 86_400,
    ensures
        first.outcome(vault_address, vault_tokens, amount, Some(now)) matches Ok((after, _, event))
            ==> after.vault.policy == second.vault.policy ==> (second.outcome(
            vault_address,
            vault_tokens,
            next_amount,
            Some(later),
        ) matches Ok((_, _, next)) ==> event.daily_remaining - next.daily_remaining
            == next_amount),
{
    law_execute_payment_effects(first, vault_address, vault_tokens, amount, now, day);
    law_execute_payment_effects(second, vault_address, vault_tokens, next_amount, later, day);
}

/// The kill switch always works for the owner: an agent is revoked exactly when the vault's
/// owner asks for it, the vault is where it belongs, and both accounts are writable,
/// whatever the policy is and whether or not the agent was revoked before.
pub proof fn law_revoke_agent_answers(
    ctx: RevokeAgent,
    vault_address: Option<Seq<u8>>,
)
    ensures
        ({
            let answer = ctx.outcome(vault_address);
            let payer = ctx.owner.is_writable;
            let placed = payer && vault_address == Some(ctx.vault.key@);
            let writable = placed && ctx.vault.is_writable;
            let owned = writable && ctx.vault.policy.owner == ctx.owner.key;
            &&& answer is Ok <==> owned
            &&& !payer ==> answer == Err::<
                (RevokeAgent, Revoked),
                InstructionError,
            >(InstructionError::Constraint(ConstraintError::ConstraintMut))
            &&& payer && !placed ==> answer == Err::<
                (RevokeAgent, Revoked),
                InstructionError,
            >(InstructionError::Constraint(ConstraintError::ConstraintSeeds))
            &&& placed && !writable ==> answer == Err::<
                (RevokeAgent, Revoked),
                InstructionError,
            >(InstructionError::Constraint(ConstraintError::ConstraintMut))
            &&& writable && !owned ==> answer == Err::<
                (RevokeAgent, Revoked),
                InstructionError,
            >(InstructionError::Constraint(ConstraintError::ConstraintHasOne))
        }),
{
}

/// Revoking an agent switches the vault off, announces the vault, and touches nothing else.
pub proof fn law_revoke_agent_effects(ctx: RevokeAgent, vault_address: Option<Seq<u8>>)
    ensures
        ctx.outcome(vault_address) matches Ok((after, event)) ==> {
            let (v, w) = (ctx.vault.policy, after.vault.policy);
            &&& !w.is_active
            &&& same_bindings(v, w)
            &&& same_envelope(v, w)
            &&& same_spending(v, w)
            &&& event.vault == ctx.vault.key
            &&& after.vault.key == ctx.vault.key
            &&& after.vault.is_writable == ctx.vault.is_writable
            &&& after.owner == ctx.owner
        },
{
}

/// A withdrawal goes through exactly when the vault's owner asks for it, the vault and the
/// two token accounts are where they belong and writable, the time is known, the vault is
/// revoked or has expired by then, and there is something to withdraw. Neither the caps nor
/// the recipients matter.
pub proof fn law_withdraw_unused_answers(
    ctx: WithdrawUnused,
    vault_address: Option<Seq<u8>>,
    vault_tokens: Option<Seq<u8>>,
    owner_tokens: Option<Seq<u8>>,
    clock: Option<i64>,
)
    ensures
        ({
            let answer = ctx.outcome(vault_address, vault_tokens, owner_tokens, clock);
            let payer = ctx.owner.is_writable;
            let placed = payer && vault_address == Some(ctx.vault.key@);
            let writable = placed && ctx.vault.is_writable;
            let owned = writable && ctx.vault.policy.owner == ctx.owner.key;
            let source_owned = owned && ctx.vault_token_account.owner == ctx.vault.key;
            let source_placed = source_owned && vault_tokens == Some(ctx.vault_token_account.key@);
            let source_writable = source_placed && ctx.vault_token_account.is_writable;
            let wallet_owned = source_writable && ctx.owner_token_account.owner == ctx.owner.key;
            let wallet_placed = wallet_owned && owner_tokens == Some(ctx.owner_token_account.key@);
            let wallet_writable = wallet_placed && ctx.owner_token_account.is_writable;
            let timed = wallet_writable && clock is Some;
            let ended = timed
                && (!ctx.vault.policy.is_active || clock->0 >= ctx.vault.policy.expiry_ts);
            let filled = ended && ctx.vault_token_account.amount > 0;
            &&& answer is Ok <==> filled
            &&& !payer ==> answer == Err::<
                (TokenTransfer, Withdrawn),
                InstructionError,
            >(InstructionError::Constraint(ConstraintError::ConstraintMut))
            &&& payer && !placed ==> answer == Err::<
                (TokenTransfer, Withdrawn),
                InstructionError,
            >(InstructionError::Constraint(ConstraintError::ConstraintSeeds))
            &&& placed && !writable ==> answer == Err::<
                (TokenTransfer, Withdrawn),
                InstructionError,
            >(InstructionError::Constraint(ConstraintError::ConstraintMut))
            &&& writable && !owned ==> answer == Err::<
                (TokenTransfer, Withdrawn),
                InstructionError,
            >(InstructionError::Constraint(ConstraintError::ConstraintHasOne))
            &&& owned && !source_owned ==> answer == Err::<
                (TokenTransfer, Withdrawn),
                InstructionError,
            >(InstructionError::Constraint(ConstraintError::ConstraintTokenOwner))
            &&& source_owned && !source_placed ==> answer == Err::<
                (TokenTransfer, Withdrawn),
                InstructionError,
            >(InstructionError::Constraint(ConstraintError::ConstraintAssociated))
            &&& source_placed && !source_writable ==> answer == Err::<
                (TokenTransfer, Withdrawn),
                InstructionError,
            >(InstructionError::Constraint(ConstraintError::ConstraintMut))
            &&& source_writable && !wallet_owned ==> answer == Err::<
                (TokenTransfer, Withdrawn),
                InstructionError,
            >(InstructionError::Constraint(ConstraintError::ConstraintTokenOwner))
            &&& wallet_owned && !wallet_placed ==> answer == Err::<
                (TokenTransfer, Withdrawn),
                InstructionError,
            >(InstructionError::Constraint(ConstraintError::ConstraintAssociated))
            &&& wallet_placed && !wallet_writable ==> answer == Err::<
                (TokenTransfer, Withdrawn),
                InstructionError,
            >(InstructionError::Constraint(ConstraintError::ConstraintMut))
            &&& wallet_writable && !timed ==> answer == Err::<
                (TokenTransfer, Withdrawn),
                InstructionError,
            >(InstructionError::ClockUnavailable)
            &&& timed && !ended ==> answer == Err::<
                (TokenTransfer, Withdrawn),
                InstructionError,
            >(InstructionError::Capkey(CapkeyError::VaultStillActive))
            &&& ended && !filled ==> answer == Err::<
                (TokenTransfer, Withdrawn),
                InstructionError,
            >(InstructionError::Capkey(CapkeyError::NothingToWithdraw))
        }),
{
}

/// A withdrawal moves all that the vault's token account holds to the owner's, on the
/// vault's authority and under the vault's seeds, and announces just that.
pub proof fn law_withdraw_unused_effects(
    ctx: WithdrawUnused,
    vault_address: Option<Seq<u8>>,
    vault_tokens: Option<Seq<u8>>,
    owner_tokens: Option<Seq<u8>>,
    clock: Option<i64>,
)
    ensures
        ctx.outcome(vault_address, vault_tokens, owner_tokens, clock) matches Ok((transfer, event))
            ==> {
            let v = ctx.vault.policy;
            &&& transfer.amount == ctx.vault_token_account.amount
            &&& transfer.from == ctx.vault_token_account.key
            &&& vault_tokens == Some(transfer.from@)
            &&& transfer.to == ctx.owner_token_account.key
            &&& owner_tokens == Some(transfer.to@)
            &&& transfer.authority == ctx.vault.key
            &&& transfer.signer matches Some(signer)
            &&& signer.owner == v.owner
            &&& signer.agent == v.agent
            &&& signer.token_mint == v.token_mint
            &&& signer.bump@ == seq![v.bump]
            &&& event.vault == ctx.vault.key
            &&& event.owner == v.owner
            &&& event.amount == ctx.vault_token_account.amount
        },
{
    law_signer_seeds(ctx.vault.policy);
}

/// The conditions on the accounts of a creation come before those on the deposit: a
/// request for nothing finds the fault in the accounts, if there is one.
pub proof fn law_create_vault_checks_accounts_first(
    ctx: CreateVault,
    found: Option<(Seq<u8>, u8)>,
    vault_tokens: Option<Seq<u8>>,
    owner_tokens: Option<Seq<u8>>,
)
    ensures
        ctx.outcome(found, vault_tokens, owner_tokens, 0)->Err_0 == match ctx.refusal(
            address_of(found),
            vault_tokens,
            owner_tokens,
        ) {
            Some(error) => error,
            None => InstructionError::Capkey(CapkeyError::ZeroAmount),
        },
{
}

/// The conditions on the accounts of a funding come before those on the amount: a request
/// for nothing finds the fault in the accounts, if there is one.
pub proof fn law_fund_vault_checks_accounts_first(
    ctx: FundVault,
    vault_address: Option<Seq<u8>>,
    vault_tokens: Option<Seq<u8>>,
    owner_tokens: Option<Seq<u8>>,
)
    ensures
        ctx.outcome(vault_address, vault_tokens, owner_tokens, 0)->Err_0 == match ctx.refusal(
            vault_address,
            vault_tokens,
            owner_tokens,
        ) {
            Some(error) => error,
            None => InstructionError::Capkey(CapkeyError::ZeroAmount),
        },
{
}

/// The conditions on the accounts of a payment come before those of the policy: a request
/// for nothing finds the fault in the accounts, if there is one.
pub proof fn law_execute_payment_checks_accounts_first(
    ctx: ExecutePayment,
    vault_address: Option<Seq<u8>>,
    vault_tokens: Option<Seq<u8>>,
    clock: Option<i64>,
)
    ensures
        ctx.outcome(vault_address, vault_tokens, 0, clock)->Err_0 == match ctx.refusal(
            vault_address,
            vault_tokens,
        ) {
            Some(error) => error,
            None => InstructionError::Capkey(CapkeyError::ZeroAmount),
        },
{
}

/// The conditions on the accounts of a withdrawal come before those on the vault: without
/// the time the fault in the accounts is found, if there is one.
pub proof fn law_withdraw_unused_checks_accounts_first(
    ctx: WithdrawUnused,
    vault_address: Option<Seq<u8>>,
    vault_tokens: Option<Seq<u8>>,
    owner_tokens: Option<Seq<u8>>,
)
    ensures
        ctx.outcome(vault_address, vault_tokens, owner_tokens, None)->Err_0 == match ctx.refusal(
            vault_address,
            vault_tokens,
            owner_tokens,
        ) {
            Some(error) => error,
            None => InstructionError::ClockUnavailable,
        },
{
}

} // verus!
