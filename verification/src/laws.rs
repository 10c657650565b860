//! What holds of the program as a whole, whatever is asked of it.
use vstd::prelude::*;
use crate::accounts::{
    CreateVault, ExecutePayment, FundVault, RevokeAgent, SetPolicy, WithdrawUnused,
};
use crate::address::{
    found_program_address, lemma_first_address, program_address, token_address, vault_seeds,
};
use crate::error::{CapkeyError, InstructionError};
use crate::history::{
    in_order, on_one_day, paid, paid_on, policy_stays, run, Request, Transaction,
};
use crate::pubkey::Pubkey;
use crate::vault::{day_of, VaultPolicy, DAY_SECONDS};

verus! {

/// The policy permits a payment exactly when every one of its rules does: the amount
/// is not zero, the vault is neither revoked nor expired, the amount is within the
/// cap for one transaction and, with what was spent that day, within the daily limit,
/// and the recipient is approved.
pub proof fn law_payment_stays_within_policy(
    v: VaultPolicy,
    amount: u64,
    clock: Option<i64>,
    recipient: Pubkey,
)
    ensures
        v.payment_error(amount, clock, recipient) is None <==> {
            &&& amount > 0
            &&& v.is_active
            &&& clock matches Some(now)
            &&& now < v.expiry_ts
            &&& amount <= v.max_per_tx
            &&& v.spent_on(day_of(now)) + amount <= v.daily_limit
            &&& v.allowlist().contains(recipient)
        },
{
}

/// Only the agent that a vault is bound to can pay from it, only in tokens of the mint
/// that it is bound to, and only what the policy permits. The tokens leave the
/// vault's own token account and go to the recipient's.
pub proof fn law_only_the_agent_pays(
    ctx: ExecutePayment,
    vault_address: Option<Seq<u8>>,
    vault_tokens: Option<Seq<u8>>,
    amount: u64,
    clock: Option<i64>,
)
    ensures
        ctx.outcome(vault_address, vault_tokens, amount, clock) matches Ok((_, transfer, event)) ==> {
            &&& ctx.agent.key == ctx.vault.policy.agent
            &&& ctx.mint.key == ctx.vault.policy.token_mint
            &&& ctx.recipient_token_account.mint == ctx.vault.policy.token_mint
            &&& ctx.vault.policy.payment_error(
                amount,
                clock,
                ctx.recipient_token_account.owner,
            ) is None
            &&& transfer.amount == amount
            &&& vault_tokens == Some(transfer.from@)
            &&& vault_address == Some(transfer.authority@)
            &&& transfer.to == ctx.recipient_token_account.key
            &&& event.recipient == ctx.recipient_token_account.owner
        },
{
}

/// The caps of a vault are in units of the mint that it is bound to, and never release
/// tokens of another: a payment draws on the vault's token account for that mint and
/// goes to an account of that mint. Funding fills the same token account.
pub proof fn law_budget_is_in_the_bound_mint(
    pay: ExecutePayment,
    fund: FundVault,
    vault_address: Option<Seq<u8>>,
    owner_tokens: Option<Seq<u8>>,
    amount: u64,
    clock: Option<i64>,
)
    ensures
        pay.outcome(
            vault_address,
            token_address(pay.vault.key, pay.mint.key),
            amount,
            clock,
        ) matches Ok((_, transfer, _)) ==> {
            &&& pay.mint.key == pay.vault.policy.token_mint
            &&& pay.recipient_token_account.mint == pay.vault.policy.token_mint
            &&& token_address(pay.vault.key, pay.vault.policy.token_mint) == Some(transfer.from@)
        },
        fund.outcome(
            vault_address,
            token_address(fund.vault.key, fund.mint.key),
            owner_tokens,
            amount,
        ) matches Ok(transfer) ==> {
            &&& fund.mint.key == fund.vault.policy.token_mint
            &&& token_address(fund.vault.key, fund.vault.policy.token_mint) == Some(transfer.to@)
        },
{
}

/// Only its owner can fund a vault.
pub proof fn law_only_the_owner_funds(
    ctx: FundVault,
    vault_address: Option<Seq<u8>>,
    vault_tokens: Option<Seq<u8>>,
    owner_tokens: Option<Seq<u8>>,
    amount: u64,
)
    ensures
        ctx.outcome(vault_address, vault_tokens, owner_tokens, amount) is Ok ==> ctx.owner.key
            == ctx.vault.policy.owner,
{
}

/// Only its owner can set the policy of a vault.
pub proof fn law_only_the_owner_sets_policy(
    ctx: SetPolicy,
    vault_address: Option<Seq<u8>>,
    max_per_tx: u64,
    daily_limit: u64,
    expiry_ts: i64,
    allowed_recipients: Seq<Pubkey>,
)
    ensures
        ctx.outcome(vault_address, max_per_tx, daily_limit, expiry_ts, allowed_recipients) is Ok
            ==> ctx.owner.key == ctx.vault.policy.owner,
{
}

/// Only its owner can revoke the agent of a vault.
pub proof fn law_only_the_owner_revokes(ctx: RevokeAgent, vault_address: Option<Seq<u8>>)
    ensures
        ctx.outcome(vault_address) is Ok ==> ctx.owner.key == ctx.vault.policy.owner,
{
}

/// Only its owner can withdraw from a vault, and what the owner gets is all that the
/// vault's token account holds, into the owner's own token account.
pub proof fn law_only_the_owner_withdraws(
    ctx: WithdrawUnused,
    vault_address: Option<Seq<u8>>,
    vault_tokens: Option<Seq<u8>>,
    owner_tokens: Option<Seq<u8>>,
    clock: Option<i64>,
)
    ensures
        ctx.outcome(vault_address, vault_tokens, owner_tokens, clock) matches Ok((transfer, _)) ==> {
            &&& ctx.owner.key == ctx.vault.policy.owner
            &&& transfer.amount == ctx.vault_token_account.amount
            &&& transfer.amount > 0
            &&& vault_tokens == Some(transfer.from@)
            &&& owner_tokens == Some(transfer.to@)
        },
{
}

/// The seeds that a payment hands to the token program lead to the address of the
/// vault on whose behalf it is made.
pub proof fn law_vault_signs_its_payments(
    program_id: Pubkey,
    ctx: ExecutePayment,
    vault_tokens: Option<Seq<u8>>,
    amount: u64,
    clock: Option<i64>,
)
    ensures
        ctx.outcome(
            program_address(ctx.vault.seeds_for(ctx.vault.policy.owner), program_id@),
            vault_tokens,
            amount,
            clock,
        ) matches Ok((_, transfer, _)) ==> {
            &&& transfer.signer matches Some(signer)
            &&& program_address(signer.seeds(), program_id@) == Some(transfer.authority@)
        },
{
    let policy = ctx.vault.policy;
    assert(policy.signer_seeds().bump@ =~= seq![policy.bump]);
}

/// The seeds that a withdrawal hands to the token program lead to the address of the
/// vault on whose behalf it is made.
pub proof fn law_vault_signs_its_withdrawals(
    program_id: Pubkey,
    ctx: WithdrawUnused,
    vault_tokens: Option<Seq<u8>>,
    owner_tokens: Option<Seq<u8>>,
    clock: Option<i64>,
)
    ensures
        ctx.outcome(
            program_address(ctx.vault.seeds_for(ctx.owner.key), program_id@),
            vault_tokens,
            owner_tokens,
            clock,
        ) matches Ok((transfer, _)) ==> {
            &&& transfer.signer matches Some(signer)
            &&& program_address(signer.seeds(), program_id@) == Some(transfer.authority@)
        },
{
    let policy = ctx.vault.policy;
    assert(policy.signer_seeds().bump@ =~= seq![policy.bump]);
}

/// What the owner puts in is what the agent can pay from and what the owner can take
/// back: the first deposit and all funding of a vault fill the very token account that
/// payments draw on, and withdrawals of the mint that the vault is bound to.
pub proof fn law_budget_is_one_account(
    create: CreateVault,
    fund: FundVault,
    pay: ExecutePayment,
    withdraw: WithdrawUnused,
    found: Option<(Seq<u8>, u8)>,
    vault_address: Option<Seq<u8>>,
    owner_tokens: Option<Seq<u8>>,
    amount: u64,
    clock: Option<i64>,
)
    requires
        fund.vault.key == create.vault.key,
        fund.vault.key == pay.vault.key,
        fund.vault.key == withdraw.vault.key,
        pay.vault.policy.token_mint == create.mint.key,
        pay.vault.policy.token_mint == fund.vault.policy.token_mint,
        pay.vault.policy.token_mint == withdraw.mint.key,
    ensures
        ({
            let vault_tokens = token_address(pay.vault.key, pay.vault.policy.token_mint);
            &&& create.outcome(
                found,
                token_address(create.vault.key, create.mint.key),
                owner_tokens,
                amount,
            ) matches Ok((_, transfer)) ==> vault_tokens == Some(transfer.to@)
            &&& fund.outcome(
                vault_address,
                token_address(fund.vault.key, fund.mint.key),
                owner_tokens,
                amount,
            ) matches Ok(transfer) ==> vault_tokens == Some(transfer.to@)
            &&& pay.outcome(
                vault_address,
                token_address(pay.vault.key, pay.mint.key),
                amount,
                clock,
            ) matches Ok((_, transfer, _)) ==> vault_tokens == Some(transfer.from@)
            &&& withdraw.outcome(
                vault_address,
                token_address(withdraw.vault.key, withdraw.mint.key),
                owner_tokens,
                clock,
            ) matches Ok((transfer, _)) ==> vault_tokens == Some(transfer.from@)
        }),
{
}

/// Owner and agent never race for the same funds: at no time does a vault permit both
/// a payment and a withdrawal.
pub proof fn law_owner_and_agent_never_race(
    v: VaultPolicy,
    clock: Option<i64>,
    amount: u64,
    recipient: Pubkey,
    balance: u64,
)
    ensures
        !(v.payment_error(amount, clock, recipient) is None && v.withdrawal_error(
            clock,
            balance,
        ) is None),
{
}

/// Once its agent is revoked, or once it has expired, whatever a vault holds can be
/// withdrawn.
pub proof fn law_unused_funds_can_be_recovered(v: VaultPolicy, now: i64, balance: u64)
    requires
        balance > 0,
    ensures
        v.after_revocation().withdrawal_error(Some(now), balance) is None,
        now >= v.expiry_ts ==> v.withdrawal_error(Some(now), balance) is None,
{
}

/// A policy that is accepted takes effect whole: its caps, its expiry and its
/// allowlist, with no recipient left over from before. What was spent today stays
/// counted and a revoked vault stays revoked.
pub proof fn law_policy_takes_effect(
    v: VaultPolicy,
    max_per_tx: u64,
    daily_limit: u64,
    expiry_ts: i64,
    recipients: Seq<Pubkey>,
)
    requires
        VaultPolicy::policy_error(max_per_tx, daily_limit, recipients) is None,
    ensures
        ({
            let after = v.after_policy(max_per_tx, daily_limit, expiry_ts, recipients);
            &&& after.wf()
            &&& after.allowlist() == recipients
            &&& after.max_per_tx == max_per_tx
            &&& after.daily_limit == daily_limit
            &&& after.expiry_ts == expiry_ts
            &&& after.is_active == v.is_active
            &&& after.amount_spent_today == v.amount_spent_today
            &&& after.last_reset_day == v.last_reset_day
        }),
{
    let after = v.after_policy(max_per_tx, daily_limit, expiry_ts, recipients);
    assert(after.allowlist() =~= recipients);
}

/// An empty allowlist is a pause and no more: filling it again makes a payment
/// possible that the caps, the expiry and the day's spending leave room for.
pub proof fn law_pause_can_be_lifted(
    v: VaultPolicy,
    max_per_tx: u64,
    daily_limit: u64,
    expiry_ts: i64,
    recipient: Pubkey,
    amount: u64,
    now: i64,
)
    requires
        v.is_active,
        0 < amount <= max_per_tx <= daily_limit,
        v.spent_on(day_of(now)) + amount <= daily_limit,
        now < expiry_ts,
    ensures
        v.after_policy(max_per_tx, daily_limit, expiry_ts, Seq::<Pubkey>::empty()).after_policy(
            max_per_tx,
            daily_limit,
            expiry_ts,
            seq![recipient],
        ).payment_error(amount, Some(now), recipient) is None,
{
    let paused = v.after_policy(max_per_tx, daily_limit, expiry_ts, Seq::<Pubkey>::empty());
    law_policy_takes_effect(v, max_per_tx, daily_limit, expiry_ts, Seq::<Pubkey>::empty());
    law_policy_takes_effect(paused, max_per_tx, daily_limit, expiry_ts, seq![recipient]);
    let lifted = paused.after_policy(max_per_tx, daily_limit, expiry_ts, seq![recipient]);
    assert(lifted.allowlist()[0] == recipient);
}

/// The day changes at midnight UTC, and at no other time.
pub proof fn law_day_changes_at_midnight(now: i64, day: int)
    ensures
        day_of(now) == day <==> day * DAY_SECONDS <= now < (day + 1) * DAY_SECONDS,
{
    assert(day_of(now) * DAY_SECONDS <= now < (day_of(now) + 1) * DAY_SECONDS);
}

/// On a day on which the vault has not paid yet the whole daily limit is available:
/// nothing of what was spent before counts.
pub proof fn law_new_day_restores_the_budget(v: VaultPolicy, now: i64)
    requires
        v.last_reset_day != day_of(now),
    ensures
        v.spent_on(day_of(now)) == 0,
{
}

/// What a payment reports as remaining is what can still be spent that day: any later
/// payment on the same day is within the daily limit exactly when it is no more than
/// that.
pub proof fn law_remaining_can_still_be_spent(
    ctx: ExecutePayment,
    vault_address: Option<Seq<u8>>,
    vault_tokens: Option<Seq<u8>>,
    amount: u64,
    now: i64,
    next_amount: u64,
    later: i64,
    recipient: Pubkey,
)
    requires
        ctx.outcome(vault_address, vault_tokens, amount, Some(now)) is Ok,
        day_of(later) == day_of(now),
        later < ctx.vault.policy.expiry_ts,
        0 < next_amount <= ctx.vault.policy.max_per_tx,
        ctx.vault.policy.allowlist().contains(recipient),
    ensures
        ({
            let (after, _, event) = ctx.outcome(
                vault_address,
                vault_tokens,
                amount,
                Some(now),
            )->Ok_0;
            after.vault.policy.payment_error(next_amount, Some(later), recipient) == if next_amount
                <= event.daily_remaining {
                None::<InstructionError>
            } else {
                Some(InstructionError::Capkey(CapkeyError::ExceedsDailyLimit))
            }
        }),
{
}

/// Creating a vault where there is one is a step of its history that changes nothing:
/// the request is refused, for a vault is created only at an address that is free.
pub proof fn law_creation_is_a_step(
    ctx: CreateVault,
    found: Option<(Seq<u8>, u8)>,
    vault_tokens: Option<Seq<u8>>,
    owner_tokens: Option<Seq<u8>>,
    initial_deposit: u64,
    settled: bool,
)
    ensures
        ctx.outcome(found, vault_tokens, owner_tokens, initial_deposit) is Ok
            ==> !ctx.vault_in_use && !ctx.vault_tokens_in_use,
        ctx.vault_in_use ==> {
            let t = Transaction { request: Request::Create, settled };
            t.step(ctx.vault.policy) == match ctx.outcome(
                found,
                vault_tokens,
                owner_tokens,
                initial_deposit,
            ) {
                Ok((after, _)) => after.vault.policy,
                Err(_) => ctx.vault.policy,
            }
        },
{
}

/// The bump that a new vault stores is the highest one that leads to an address, and
/// the vault is at that address.
pub proof fn law_stored_bump_is_canonical(
    program_id: Pubkey,
    ctx: CreateVault,
    vault_tokens: Option<Seq<u8>>,
    owner_tokens: Option<Seq<u8>>,
    initial_deposit: u64,
)
    ensures
        ({
            let seeds = vault_seeds(ctx.owner.key, ctx.agent.key, ctx.mint.key);
            ctx.outcome(
                found_program_address(seeds, program_id@),
                vault_tokens,
                owner_tokens,
                initial_deposit,
            ) matches Ok((after, _)) ==> {
                &&& program_address(seeds.push(seq![after.vault.policy.bump]), program_id@) == Some(
                    after.vault.key@,
                )
                &&& forall|higher: u8|
                    higher > after.vault.policy.bump ==> #[trigger] program_address(
                        seeds.push(seq![higher]),
                        program_id@,
                    ) is None
            }
        }),
{
    lemma_first_address(
        vault_seeds(ctx.owner.key, ctx.agent.key, ctx.mint.key),
        program_id@,
        u8::MAX as nat,
    );
}

/// Setting a policy is one step of a vault's history, and a refused one is none.
pub proof fn law_set_policy_is_a_step(
    ctx: SetPolicy,
    vault_address: Option<Seq<u8>>,
    max_per_tx: u64,
    daily_limit: u64,
    expiry_ts: i64,
    recipients: Seq<Pubkey>,
)
    ensures
        ({
            let t = Transaction {
                request: Request::SetPolicy { max_per_tx, daily_limit, expiry_ts, recipients },
                settled: ctx.vault.owner_error(ctx.owner, vault_address) is None,
            };
            t.step(ctx.vault.policy) == match ctx.outcome(
                vault_address,
                max_per_tx,
                daily_limit,
                expiry_ts,
                recipients,
            ) {
                Ok(after) => after.vault.policy,
                Err(_) => ctx.vault.policy,
            }
        }),
{
}

/// A payment is one step of a vault's history, and a refused one is none. What the
/// step pays is what the transfer moves.
pub proof fn law_payment_is_a_step(
    ctx: ExecutePayment,
    vault_address: Option<Seq<u8>>,
    vault_tokens: Option<Seq<u8>>,
    amount: u64,
    clock: Option<i64>,
)
    ensures
        ({
            let t = Transaction {
                request: Request::Pay {
                    amount,
                    clock,
                    recipient: ctx.recipient_token_account.owner,
                },
                settled: ctx.refusal(vault_address, vault_tokens) is None,
            };
            match ctx.outcome(vault_address, vault_tokens, amount, clock) {
                Ok((after, transfer, _)) => {
                    &&& t.step(ctx.vault.policy) == after.vault.policy
                    &&& t.pays(ctx.vault.policy) == transfer.amount
                },
                Err(_) => {
                    &&& t.step(ctx.vault.policy) == ctx.vault.policy
                    &&& t.pays(ctx.vault.policy) == 0
                },
            }
        }),
{
}

/// Revoking the agent is one step of a vault's history, and a refused revocation is
/// none.
pub proof fn law_revocation_is_a_step(ctx: RevokeAgent, vault_address: Option<Seq<u8>>)
    ensures
        ({
            let t = Transaction {
                request: Request::Revoke,
                settled: ctx.vault.owner_error(ctx.owner, vault_address) is None,
            };
            t.step(ctx.vault.policy) == match ctx.outcome(vault_address) {
                Ok((after, _)) => after.vault.policy,
                Err(_) => ctx.vault.policy,
            }
        }),
{
}

/// A vault is bound to one owner, one agent and one mint for good, and stays at one
/// address.
pub proof fn law_bindings_are_permanent(v: VaultPolicy, ts: Seq<Transaction>)
    ensures
        run(v, ts).owner == v.owner,
        run(v, ts).agent == v.agent,
        run(v, ts).token_mint == v.token_mint,
        run(v, ts).bump == v.bump,
        run(v, ts).signer_seeds() == v.signer_seeds(),
    decreases ts.len(),
{
    if ts.len() > 0 {
        law_bindings_are_permanent(v, ts.drop_last());
    }
}

/// In every state that a vault can reach, no more recipients are counted than there
/// are slots, and the cap for one transaction is within the daily limit.
pub proof fn law_vault_stays_consistent(
    owner: Pubkey,
    agent: Pubkey,
    token_mint: Pubkey,
    bump: u8,
    ts: Seq<Transaction>,
)
    ensures
        ({
            let v = run(VaultPolicy::fresh(owner, agent, token_mint, bump), ts);
            &&& v.wf()
            &&& v.max_per_tx <= v.daily_limit
        }),
    decreases ts.len(),
{
    if ts.len() > 0 {
        law_vault_stays_consistent(owner, agent, token_mint, bump, ts.drop_last());
    }
}

/// A revocation is permanent: whatever happens after it, the vault pays nothing more and
/// permits no payment, and what it holds can be withdrawn at any time. That an attempt to
/// create the vault again changes nothing is `law_creation_is_a_step`, and rests on the
/// system program's word that the vault's address is in use.
pub proof fn law_revocation_is_permanent(v: VaultPolicy, ts: Seq<Transaction>)
    requires
        !v.is_active,
    ensures
        !run(v, ts).is_active,
        paid(v, ts) == 0,
        forall|amount: u64, clock: Option<i64>, recipient: Pubkey|
            amount > 0 ==> #[trigger] run(v, ts).payment_error(amount, clock, recipient) == Some(
                InstructionError::Capkey(CapkeyError::VaultRevoked),
            ),
        forall|now: i64, balance: u64|
            balance > 0 ==> #[trigger] run(v, ts).withdrawal_error(Some(now), balance) is None,
    decreases ts.len(),
{
    if ts.len() > 0 {
        law_revocation_is_permanent(v, ts.drop_last());
    }
}

/// A sequence that keeps its policy does so without its last transaction.
proof fn lemma_policy_stays_without_last(ts: Seq<Transaction>)
    requires
        ts.len() > 0,
        policy_stays(ts),
    ensures
        policy_stays(ts.drop_last()),
        !ts.last().sets_policy(),
{
    assert forall|i: int| 0 <= i < ts.len() - 1 implies !(
    #[trigger] ts.drop_last()[i]).sets_policy() by {
        assert(ts.drop_last()[i] == ts[i]);
    }
}

/// Only a new policy changes the caps, the expiry and the recipients.
pub proof fn law_only_a_policy_changes_the_policy(v: VaultPolicy, ts: Seq<Transaction>)
    requires
        policy_stays(ts),
    ensures
        run(v, ts).max_per_tx == v.max_per_tx,
        run(v, ts).daily_limit == v.daily_limit,
        run(v, ts).expiry_ts == v.expiry_ts,
        run(v, ts).allowed_recipients == v.allowed_recipients,
        run(v, ts).recipient_count == v.recipient_count,
        run(v, ts).allowlist() == v.allowlist(),
    decreases ts.len(),
{
    if ts.len() > 0 {
        lemma_policy_stays_without_last(ts);
        law_only_a_policy_changes_the_policy(v, ts.drop_last());
    }
}

/// A vault has no expiry until a policy is set: no payment before the last moment that
/// a clock can show is refused as too late.
pub proof fn law_no_expiry_before_a_policy(
    owner: Pubkey,
    agent: Pubkey,
    token_mint: Pubkey,
    bump: u8,
    ts: Seq<Transaction>,
    amount: u64,
    now: i64,
    recipient: Pubkey,
)
    requires
        policy_stays(ts),
        now < i64::MAX,
    ensures
        run(VaultPolicy::fresh(owner, agent, token_mint, bump), ts).payment_error(
            amount,
            Some(now),
            recipient,
        ) != Some(InstructionError::Capkey(CapkeyError::VaultExpired)),
{
    law_only_a_policy_changes_the_policy(VaultPolicy::fresh(owner, agent, token_mint, bump), ts);
}

/// With an empty allowlist, as a vault has when it is new, nothing is paid and no
/// payment is permitted until a policy is set.
pub proof fn law_empty_allowlist_pauses(v: VaultPolicy, ts: Seq<Transaction>)
    requires
        v.recipient_count == 0,
        policy_stays(ts),
    ensures
        paid(v, ts) == 0,
        forall|amount: u64, clock: Option<i64>, recipient: Pubkey|
            #[trigger] run(v, ts).payment_error(amount, clock, recipient) is Some,
    decreases ts.len(),
{
    law_only_a_policy_changes_the_policy(v, ts);
    assert(run(v, ts).allowlist().len() == 0);
    if ts.len() > 0 {
        lemma_policy_stays_without_last(ts);
        law_empty_allowlist_pauses(v, ts.drop_last());
    }
}

/// A later time is on no earlier day.
proof fn lemma_days_follow_time(earlier: i64, later: i64)
    requires
        earlier <= later,
    ensures
        day_of(earlier) <= day_of(later),
{
}

/// A sequence in order stays in order without its last transaction.
proof fn lemma_in_order_without_last(ts: Seq<Transaction>)
    requires
        ts.len() > 0,
        in_order(ts),
    ensures
        in_order(ts.drop_last()),
{
    let rest = ts.drop_last();
    assert forall|i: int, j: int|
        #![trigger rest[i], rest[j]]
        0 <= i < j < rest.len() && rest[i].time() is Some
            && rest[j].time() is Some implies rest[i].time()->0 <= rest[j].time()->0 by {
        assert(rest[i] == ts[i] && rest[j] == ts[j]);
    }
}

/// Nothing was paid so far, or the counter stands for the day of an earlier payment
/// and nothing was paid after that day.
spec fn counter_is_anchored(v: VaultPolicy, ts: Seq<Transaction>) -> bool {
    ||| forall|day: int| #[trigger] paid_on(v, ts, day) == 0
    ||| {
        &&& exists|i: int|
            0 <= i < ts.len() && (#[trigger] ts[i]).time() is Some && day_of(ts[i].time()->0) == run(
                v,
                ts,
            ).last_reset_day
        &&& forall|day: int|
            day > run(v, ts).last_reset_day ==> #[trigger] paid_on(v, ts, day) == 0
    }
}

/// The counter stays anchored and holds all that was paid on its day.
proof fn lemma_counter(v: VaultPolicy, ts: Seq<Transaction>)
    requires
        v.amount_spent_today == 0,
        in_order(ts),
    ensures
        run(v, ts).amount_spent_today == paid_on(v, ts, run(v, ts).last_reset_day as int),
        counter_is_anchored(v, ts),
    decreases ts.len(),
{
    if ts.len() > 0 {
        let rest = ts.drop_last();
        let t = ts.last();
        let before = run(v, rest);
        let after = run(v, ts);
        lemma_in_order_without_last(ts);
        lemma_counter(v, rest);
        assert forall|day: int| #[trigger] paid_on(v, ts, day) == paid_on(v, rest, day) + t.pays_on(
            before,
            day,
        ) by {}
        if t.pays(before) == 0 {
            assert(after.last_reset_day == before.last_reset_day);
            assert(after.amount_spent_today == before.amount_spent_today);
            if !(forall|day: int| #[trigger] paid_on(v, rest, day) == 0) {
                let i = choose|i: int|
                    0 <= i < rest.len() && (#[trigger] rest[i]).time() is Some && day_of(
                        rest[i].time()->0,
                    ) == before.last_reset_day;
                assert(ts[i] == rest[i]);
            }
        } else {
            let now = t.time()->0;
            assert(after == before.after_payment(t.pays(before) as u64, now));
            if !(forall|day: int| #[trigger] paid_on(v, rest, day) == 0) {
                let i = choose|i: int|
                    0 <= i < rest.len() && (#[trigger] rest[i]).time() is Some && day_of(
                        rest[i].time()->0,
                    ) == before.last_reset_day;
                assert(ts[i] == rest[i]);
                assert(ts[ts.len() - 1] == t);
                lemma_days_follow_time(ts[i].time()->0, now);
            }
            assert(ts[ts.len() - 1].time() is Some);
        }
    }
}

/// What a vault counts as spent is what it has paid: the counter holds all that was
/// paid on the day that it stands for, and nothing was paid on any later day.
pub proof fn law_counter_is_faithful(v: VaultPolicy, ts: Seq<Transaction>)
    requires
        v.amount_spent_today == 0,
        in_order(ts),
    ensures
        run(v, ts).amount_spent_today == paid_on(v, ts, run(v, ts).last_reset_day as int),
        forall|day: int|
            day > run(v, ts).last_reset_day ==> #[trigger] paid_on(v, ts, day) == 0,
{
    lemma_counter(v, ts);
}

/// The daily cap holds over the whole life of a vault: after every payment, all that
/// was paid on its day is within the daily limit then in force.
pub proof fn law_daily_cap_holds(v: VaultPolicy, ts: Seq<Transaction>)
    requires
        v.amount_spent_today == 0,
        in_order(ts),
        ts.len() > 0,
        ts.last().pays(run(v, ts.drop_last())) > 0,
    ensures
        paid_on(v, ts, day_of(ts.last().time()->0)) <= run(v, ts).daily_limit,
{
    let t = ts.last();
    let before = run(v, ts.drop_last());
    lemma_counter(v, ts);
    assert(run(v, ts) == before.after_payment(t.pays(before) as u64, t.time()->0));
}

/// While one policy is in force, no day sees more than its daily limit go out.
pub proof fn law_daily_total_is_capped(v: VaultPolicy, ts: Seq<Transaction>, day: int)
    requires
        v.amount_spent_today == 0,
        in_order(ts),
        policy_stays(ts),
    ensures
        paid_on(v, ts, day) <= v.daily_limit,
    decreases ts.len(),
{
    if ts.len() > 0 {
        let before = run(v, ts.drop_last());
        if ts.last().pays_on(before, day) > 0 {
            law_daily_cap_holds(v, ts);
            law_only_a_policy_changes_the_policy(v, ts);
        } else {
            lemma_in_order_without_last(ts);
            lemma_policy_stays_without_last(ts);
            law_daily_total_is_capped(v, ts.drop_last(), day);
        }
    }
}

/// Within one day nothing else is needed: from any vault, whatever was spent that day
/// before, and whatever the order of the payments, the counter follows what is paid.
pub proof fn law_counter_follows_one_day(v: VaultPolicy, ts: Seq<Transaction>, day: int)
    requires
        on_one_day(ts, day),
    ensures
        run(v, ts).spent_on(day) == v.spent_on(day) + paid(v, ts),
    decreases ts.len(),
{
    if ts.len() > 0 {
        let rest = ts.drop_last();
        let t = ts.last();
        lemma_on_one_day_without_last(ts, day);
        law_counter_follows_one_day(v, rest, day);
        if t.pays(run(v, rest)) > 0 {
            assert(run(v, ts) == run(v, rest).after_payment(
                t.pays(run(v, rest)) as u64,
                t.time()->0,
            ));
        }
    }
}

/// Within one day and under one policy, no more than the daily limit goes out, from any
/// vault and in any order: together with what was spent that day before, what is paid is
/// within the limit, or else nothing is paid.
pub proof fn law_one_day_is_capped(v: VaultPolicy, ts: Seq<Transaction>, day: int)
    requires
        on_one_day(ts, day),
        policy_stays(ts),
    ensures
        paid(v, ts) <= v.daily_limit,
        paid(v, ts) > 0 ==> v.spent_on(day) + paid(v, ts) <= v.daily_limit,
    decreases ts.len(),
{
    if ts.len() > 0 {
        lemma_on_one_day_without_last(ts, day);
        lemma_policy_stays_without_last(ts);
        law_one_day_is_capped(v, ts.drop_last(), day);
        law_counter_follows_one_day(v, ts.drop_last(), day);
        law_only_a_policy_changes_the_policy(v, ts.drop_last());
    }
}

/// A sequence of one day is of that day without its last transaction.
proof fn lemma_on_one_day_without_last(ts: Seq<Transaction>, day: int)
    requires
        ts.len() > 0,
        on_one_day(ts, day),
    ensures
        on_one_day(ts.drop_last(), day),
        ts.last().time() matches Some(now) ==> day_of(now) == day,
{
    assert forall|i: int| 0 <= i < ts.len() - 1 implies ((
    #[trigger] ts.drop_last()[i]).time() matches Some(now) ==> day_of(now) == day) by {
        assert(ts.drop_last()[i] == ts[i]);
    }
}

} // verus!
