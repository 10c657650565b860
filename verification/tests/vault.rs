use anchor_lang::prelude::{AnchorSerialize, Pubkey as SolanaKey};
use capkey::vault::day_number;
use capkey::{
    CapkeyError, InstructionError, Pubkey, VaultPolicy, DAY_SECONDS, MAX_ALLOWED_RECIPIENTS,
};

fn key(n: u8) -> Pubkey {
    Pubkey { bytes: [n; 32] }
}

fn rule<T>(error: CapkeyError) -> Result<T, InstructionError> {
    Err(InstructionError::Capkey(error))
}

/// Cap 100 for one payment, 150 for one day, recipients 7 and 8, expiry on day 10.
fn vault() -> VaultPolicy {
    let mut vault = VaultPolicy::new(&key(1), &key(2), &key(3), 255);
    vault.replace_policy(100, 150, 10 * DAY_SECONDS, &vec![key(7), key(8)]).unwrap();
    vault
}

#[test]
fn constants() {
    assert_eq!(VaultPolicy::SPACE, 243);
    assert_eq!(DAY_SECONDS, 86_400);
    assert_eq!(MAX_ALLOWED_RECIPIENTS, 3);
}

#[test]
fn space_is_a_tag_and_the_encoded_fields() {
    let key = SolanaKey::new_from_array([1; 32]);
    let keys = (key, key, key, [key, key, key]).try_to_vec().unwrap();
    let rest = (0u8, 0u64, 0u64, 0u64, 0i64, 0i64, true, 0u8).try_to_vec().unwrap();
    assert_eq!(VaultPolicy::SPACE, 8 + keys.len() + rest.len());
}

#[test]
fn new_vault_has_no_budget_and_no_expiry() {
    let vault = VaultPolicy::new(&key(1), &key(2), &key(3), 254);
    let expected = VaultPolicy {
        owner: key(1),
        agent: key(2),
        token_mint: key(3),
        allowed_recipients: [key(0), key(0), key(0)],
        recipient_count: 0,
        max_per_tx: 0,
        daily_limit: 0,
        amount_spent_today: 0,
        last_reset_day: 0,
        expiry_ts: i64::MAX,
        is_active: true,
        bump: 254,
    };
    assert_eq!(vault, expected);
}

#[test]
fn new_vault_pays_nobody() {
    let mut vault = VaultPolicy::new(&key(1), &key(2), &key(3), 254);
    assert_eq!(vault.charge(1, Some(0), &key(0)), rule(CapkeyError::ExceedsMaxPerTx));
    assert!(!vault.allows(&key(0)));
}

#[test]
fn each_rule_refuses_and_changes_nothing() {
    let now = Some(2 * DAY_SECONDS);
    let start = vault();
    let mut v = start;
    assert_eq!(v.charge(0, now, &key(7)), rule(CapkeyError::ZeroAmount));
    assert_eq!(v.charge(1, None, &key(7)), Err(InstructionError::ClockUnavailable));
    assert_eq!(v.charge(1, Some(10 * DAY_SECONDS), &key(7)), rule(CapkeyError::VaultExpired));
    assert_eq!(v.charge(101, now, &key(7)), rule(CapkeyError::ExceedsMaxPerTx));
    assert_eq!(v.charge(1, now, &key(9)), rule(CapkeyError::RecipientNotAllowed));
    assert_eq!(v, start);
    assert_eq!(v.charge(100, now, &key(7)), Ok(50));
    let after = v;
    assert_eq!(v.charge(51, now, &key(7)), rule(CapkeyError::ExceedsDailyLimit));
    assert_eq!(v, after);
    v.revoke();
    assert_eq!(v.charge(1, None, &key(7)), rule(CapkeyError::VaultRevoked));
    assert_eq!(v.charge(0, None, &key(7)), rule(CapkeyError::ZeroAmount));
}

#[test]
fn rules_apply_in_order() {
    let mut v = vault();
    assert_eq!(v.charge(101, Some(10 * DAY_SECONDS), &key(9)), rule(CapkeyError::VaultExpired));
    assert_eq!(v.charge(151, Some(0), &key(9)), rule(CapkeyError::ExceedsMaxPerTx));
    v.charge(100, Some(0), &key(7)).unwrap();
    assert_eq!(v.charge(100, Some(0), &key(9)), rule(CapkeyError::ExceedsDailyLimit));
}

#[test]
fn caps_are_inclusive_and_expiry_is_not() {
    let mut v = vault();
    assert_eq!(v.charge(100, Some(10 * DAY_SECONDS - 1), &key(8)), Ok(50));
    assert_eq!(v.charge(50, Some(10 * DAY_SECONDS - 1), &key(8)), Ok(0));
    assert_eq!(v.last_reset_day, 9);
    assert_eq!(v.amount_spent_today, 150);
}

#[test]
fn budget_is_restored_at_midnight() {
    let mut v = vault();
    let midnight = 3 * DAY_SECONDS;
    assert_eq!(v.charge(100, Some(midnight - 2), &key(7)), Ok(50));
    assert_eq!(v.charge(100, Some(midnight - 1), &key(7)), rule(CapkeyError::ExceedsDailyLimit));
    assert_eq!(v.charge(100, Some(midnight), &key(7)), Ok(50));
    assert_eq!(v.charge(50, Some(midnight), &key(7)), Ok(0));
    assert_eq!(v.last_reset_day, 3);
}

#[test]
fn budget_is_restored_at_midnight_before_the_epoch_too() {
    let mut v = vault();
    assert_eq!(v.charge(100, Some(-DAY_SECONDS), &key(7)), Ok(50));
    assert_eq!(v.charge(100, Some(-1), &key(7)), rule(CapkeyError::ExceedsDailyLimit));
    assert_eq!(v.last_reset_day, -1);
    assert_eq!(v.charge(100, Some(0), &key(7)), Ok(50));
    assert_eq!(v.last_reset_day, 0);
}

#[test]
fn days_are_numbered_from_the_epoch() {
    assert_eq!(day_number(0), 0);
    assert_eq!(day_number(DAY_SECONDS - 1), 0);
    assert_eq!(day_number(DAY_SECONDS), 1);
    assert_eq!(day_number(-1), -1);
    assert_eq!(day_number(-DAY_SECONDS), -1);
    assert_eq!(day_number(-DAY_SECONDS - 1), -2);
    assert_eq!(day_number(i64::MAX), i64::MAX.div_euclid(86_400));
    assert_eq!(day_number(i64::MIN), i64::MIN.div_euclid(86_400));
}

#[test]
fn remaining_is_what_can_still_be_spent() {
    let mut v = vault();
    let remaining = v.charge(90, Some(0), &key(7)).unwrap();
    assert_eq!(remaining, 60);
    assert_eq!(v.charge(remaining + 1, Some(0), &key(7)), rule(CapkeyError::ExceedsDailyLimit));
    assert_eq!(v.charge(remaining, Some(0), &key(7)), Ok(0));
}

#[test]
fn a_sum_past_the_largest_word_is_past_the_limit() {
    let mut v = vault();
    v.replace_policy(u64::MAX, u64::MAX, i64::MAX, &vec![key(7)]).unwrap();
    assert_eq!(v.charge(5, Some(0), &key(7)), Ok(u64::MAX - 5));
    let after = v;
    assert_eq!(v.charge(u64::MAX, Some(0), &key(7)), rule(CapkeyError::ExceedsDailyLimit));
    assert_eq!(v, after);
    assert_eq!(v.charge(u64::MAX - 5, Some(0), &key(7)), Ok(0));
}

#[test]
fn policy_must_be_consistent() {
    let start = vault();
    let mut v = start;
    let four = vec![key(4), key(5), key(6), key(7)];
    assert_eq!(v.replace_policy(2, 1, 0, &four), Err(CapkeyError::TooManyRecipients));
    assert_eq!(v.replace_policy(2, 1, 0, &vec![]), Err(CapkeyError::PolicyInconsistent));
    assert_eq!(v, start);
    assert_eq!(v.replace_policy(2, 2, 0, &vec![key(4), key(5), key(6)]), Ok(()));
    assert_eq!(v.allowed_recipients, [key(4), key(5), key(6)]);
    assert_eq!(v.recipient_count, 3);
}

#[test]
fn shorter_allowlist_drops_the_others() {
    let mut v = vault();
    v.replace_policy(100, 150, i64::MAX, &vec![key(5)]).unwrap();
    assert!(v.allows(&key(5)));
    assert!(!v.allows(&key(7)));
    assert!(!v.allows(&key(8)));
    assert_eq!(v.allowed_recipients, [key(5), key(8), key(0)]);
}

#[test]
fn new_policy_keeps_the_day_counted() {
    let mut v = vault();
    v.charge(100, Some(5), &key(7)).unwrap();
    v.replace_policy(100, 120, i64::MAX, &vec![key(7)]).unwrap();
    assert_eq!(v.charge(21, Some(5), &key(7)), rule(CapkeyError::ExceedsDailyLimit));
    assert_eq!(v.charge(20, Some(5), &key(7)), Ok(0));
    v.replace_policy(10, 10, i64::MAX, &vec![key(7)]).unwrap();
    assert_eq!(v.charge(1, Some(5), &key(7)), rule(CapkeyError::ExceedsDailyLimit));
}

#[test]
fn empty_allowlist_is_a_pause() {
    let mut v = vault();
    v.replace_policy(100, 150, i64::MAX, &vec![]).unwrap();
    assert_eq!(v.charge(1, Some(0), &key(7)), rule(CapkeyError::RecipientNotAllowed));
    assert!(v.is_active);
    v.replace_policy(100, 150, i64::MAX, &vec![key(7)]).unwrap();
    assert_eq!(v.charge(1, Some(0), &key(7)), Ok(149));
}

#[test]
fn revocation_is_permanent() {
    let mut v = vault();
    v.revoke();
    v.replace_policy(100, 150, i64::MAX, &vec![key(7)]).unwrap();
    assert!(!v.is_active);
    assert_eq!(v.charge(1, Some(0), &key(7)), rule(CapkeyError::VaultRevoked));
    v.revoke();
    assert_eq!(v.check_withdrawal(Some(0), 1), Ok(()));
}

#[test]
fn withdrawal_waits_for_revocation_or_expiry() {
    let mut v = vault();
    let last = 10 * DAY_SECONDS - 1;
    assert_eq!(v.check_withdrawal(None, 5), Err(InstructionError::ClockUnavailable));
    assert_eq!(v.check_withdrawal(Some(last), 5), rule(CapkeyError::VaultStillActive));
    assert_eq!(v.check_withdrawal(Some(last), 0), rule(CapkeyError::VaultStillActive));
    assert_eq!(v.check_withdrawal(Some(last + 1), 5), Ok(()));
    assert_eq!(v.check_withdrawal(Some(last + 1), 0), rule(CapkeyError::NothingToWithdraw));
    v.revoke();
    assert_eq!(v.check_withdrawal(Some(last), 5), Ok(()));
}

#[test]
fn owner_and_agent_never_race() {
    for now in [0, 10 * DAY_SECONDS - 1, 10 * DAY_SECONDS, i64::MAX] {
        for revoked in [false, true] {
            let mut v = vault();
            if revoked {
                v.revoke();
            }
            let withdrawable = v.check_withdrawal(Some(now), 1).is_ok();
            let payable = v.charge(1, Some(now), &key(7)).is_ok();
            assert!(withdrawable != payable);
        }
    }
}

#[test]
fn error_texts() {
    let texts = [
        (CapkeyError::ZeroAmount, "Amount must be greater than zero."),
        (CapkeyError::VaultRevoked, "Vault has been revoked by the owner."),
        (CapkeyError::VaultExpired, "Vault policy has expired."),
        (CapkeyError::ExceedsMaxPerTx, "Amount exceeds the per-transaction cap."),
        (CapkeyError::ExceedsDailyLimit, "Amount exceeds the remaining daily limit."),
        (
            CapkeyError::RecipientNotAllowed,
            "Recipient token account is not on the vault allowlist.",
        ),
        (CapkeyError::TooManyRecipients, "Allowlist may contain at most 3 recipients."),
        (CapkeyError::PolicyInconsistent, "Daily limit must be >= per-transaction cap."),
        (CapkeyError::WrongAgent, "Agent does not match the agent bound to this vault."),
        (
            CapkeyError::VaultStillActive,
            "Vault is still active and not yet expired. Revoke it or wait for expiry before withdrawing.",
        ),
        (CapkeyError::NothingToWithdraw, "Vault holds no tokens. Nothing to withdraw."),
    ];
    for (error, text) in texts {
        assert_eq!(error.msg(), text);
    }
}

#[test]
fn daily_totals_stay_within_the_limit() {
    let mut v = vault();
    let mut totals = [0u64; 10];
    let mut refused = 0;
    for step in 0..2_000i64 {
        let now = step * 431;
        let amount = ((step * 37) % 140) as u64;
        let recipient = key(7 + (step % 3) as u8);
        let before = v;
        match v.charge(amount, Some(now), &recipient) {
            Ok(remaining) => {
                let day = (now / DAY_SECONDS) as usize;
                totals[day] += amount;
                assert!(amount > 0 && amount <= 100 && recipient != key(9));
                assert_eq!(totals[day] + remaining, 150);
                assert_eq!(v.amount_spent_today, totals[day]);
            }
            Err(_) => {
                refused += 1;
                assert_eq!(v, before);
            }
        }
    }
    assert!(refused > 0);
    assert!(totals.iter().all(|total| *total <= 150));
    assert!(totals.iter().filter(|total| **total > 100).count() > 5);
}

#[test]
fn one_day_is_capped_from_any_vault_and_in_any_order() {
    let mut v = vault();
    v.amount_spent_today = 120;
    v.last_reset_day = 4;
    let day = 4 * DAY_SECONDS;
    let mut paid = 0;
    for (second, amount) in [(500, 20), (100, 40), (900, 5), (0, 10), (300, 5), (200, 1)] {
        if v.charge(amount, Some(day + second), &key(7)).is_ok() {
            paid += amount;
        }
    }
    assert_eq!(paid, 30);
    assert_eq!(v.amount_spent_today, 150);
}

#[test]
fn payments_and_revocation_leave_bindings_and_policy_alone() {
    let start = vault();
    let mut v = start;
    v.charge(10, Some(DAY_SECONDS), &key(7)).unwrap();
    v.revoke();
    let expected =
        VaultPolicy { amount_spent_today: 10, last_reset_day: 1, is_active: false, ..start };
    assert_eq!(v, expected);
}

#[test]
fn new_vault_never_expires() {
    let mut v = VaultPolicy::new(&key(1), &key(2), &key(3), 255);
    assert_eq!(v.charge(1, Some(i64::MAX - 1), &key(7)), rule(CapkeyError::ExceedsMaxPerTx));
    assert_eq!(v.charge(1, Some(i64::MAX), &key(7)), rule(CapkeyError::VaultExpired));
}
