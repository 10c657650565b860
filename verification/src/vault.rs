//! The vault and the rules of its spending policy.
use vstd::prelude::*;
use crate::address::VaultSeeds;
use crate::error::{CapkeyError, InstructionError};
use crate::pubkey::{zero_key, Pubkey};

verus! {

/// Seconds in one day of the daily cap.
pub const DAY_SECONDS: i64 = 86_400;

/// How many recipients an allowlist can hold.
pub const MAX_ALLOWED_RECIPIENTS: usize = 3;

/// A budget of tokens that one agent may spend within the policy of one owner.
#[derive(Clone, Copy, Debug, PartialEq, Eq)]
pub struct VaultPolicy {
    pub owner: Pubkey,
    pub agent: Pubkey,
    pub token_mint: Pubkey,
    /// Slots for approved recipients; only the first `recipient_count` count.
    pub allowed_recipients: [Pubkey; MAX_ALLOWED_RECIPIENTS],
    pub recipient_count: u8,
    pub max_per_tx: u64,
    pub daily_limit: u64,
    /// What was spent on the day `last_reset_day`.
    pub amount_spent_today: u64,
    pub last_reset_day: i64,
    /// The first moment at which the agent may no longer spend.
    pub expiry_ts: i64,
    pub is_active: bool,
    /// The last seed of the vault's address.
    pub bump: u8,
}

/// The number of the day in UTC that `now`, in seconds since the epoch, falls on.
/// Days before the epoch have negative numbers.
pub open spec fn day_of(now: i64) -> int {
    now as int / DAY_SECONDS as int
}

/// The number of the day in UTC that `now`, in seconds since the epoch, falls on.
pub fn day_number(now: i64) -> (day: i64)
    ensures
        day == day_of(now),
{
    let towards_zero: i64 = now / DAY_SECONDS;
    if now % DAY_SECONDS < 0 {
        towards_zero - 1
    } else {
        towards_zero
    }
}

impl VaultPolicy {
    /// The size of a stored vault: an eight-byte tag, six keys, two bytes, three
    /// unsigned and two signed words, and a flag.
    pub const SPACE: usize = 8 + 32 * 6 + 1 * 2 + 8 * 3 + 8 * 2 + 1;

    /// No more recipients are counted than there are slots.
    pub open spec fn wf(self) -> bool {
        self.recipient_count <= MAX_ALLOWED_RECIPIENTS
    }

    /// The approved recipients.
    pub open spec fn allowlist(self) -> Seq<Pubkey> {
        self.allowed_recipients@.take(self.recipient_count as int)
    }

    /// What counts against the daily limit on a given day.
    pub open spec fn spent_on(self, day: int) -> u64 {
        if self.last_reset_day == day {
            self.amount_spent_today
        } else {
            0
        }
    }

    /// The seeds under which the vault signs.
    pub open spec fn signer_seeds(self) -> VaultSeeds {
        VaultSeeds {
            owner: self.owner,
            agent: self.agent,
            token_mint: self.token_mint,
            bump: [self.bump],
        }
    }

    /// A vault as it is first stored: active and without expiry, but with caps of
    /// zero and nobody to pay.
    pub open spec fn fresh(owner: Pubkey, agent: Pubkey, token_mint: Pubkey, bump: u8) -> Self {
        VaultPolicy {
            owner,
            agent,
            token_mint,
            allowed_recipients: [zero_key(), zero_key(), zero_key()],
            recipient_count: 0,
            max_per_tx: 0,
            daily_limit: 0,
            amount_spent_today: 0,
            last_reset_day: 0,
            expiry_ts: i64::MAX,
            is_active: true,
            bump,
        }
    }

    /// The rule that a new policy breaks, if it breaks one.
    pub open spec fn policy_error(
        max_per_tx: u64,
        daily_limit: u64,
        recipients: Seq<Pubkey>,
    ) -> Option<CapkeyError> {
        if recipients.len() > MAX_ALLOWED_RECIPIENTS {
            Some(CapkeyError::TooManyRecipients)
        } else if daily_limit < max_per_tx {
            Some(CapkeyError::PolicyInconsistent)
        } else {
            None
        }
    }

    /// A recipient slot under a new allowlist: slots past its end keep their key.
    pub open spec fn slot_after(self, recipients: Seq<Pubkey>, i: int) -> Pubkey {
        if i < recipients.len() {
            recipients[i]
        } else {
            self.allowed_recipients@[i]
        }
    }

    /// The vault under a new policy.
    pub open spec fn after_policy(
        self,
        max_per_tx: u64,
        daily_limit: u64,
        expiry_ts: i64,
        recipients: Seq<Pubkey>,
    ) -> Self {
        VaultPolicy {
            max_per_tx,
            daily_limit,
            expiry_ts,
            allowed_recipients: [
                self.slot_after(recipients, 0),
                self.slot_after(recipients, 1),
                self.slot_after(recipients, 2),
            ],
            recipient_count: recipients.len() as u8,
            ..self
        }
    }

    /// The first rule that a payment breaks, in the order in which the rules
    /// apply, or `None` where the policy permits the payment.
    pub open spec fn payment_error(
        self,
        amount: u64,
        clock: Option<i64>,
        recipient: Pubkey,
    ) -> Option<InstructionError> {
        if amount == 0 {
            Some(InstructionError::Capkey(CapkeyError::ZeroAmount))
        } else if !self.is_active {
            Some(InstructionError::Capkey(CapkeyError::VaultRevoked))
        } else {
            match clock {
                None => Some(InstructionError::ClockUnavailable),
                Some(now) => if now >= self.expiry_ts {
                    Some(InstructionError::Capkey(CapkeyError::VaultExpired))
                } else if amount > self.max_per_tx {
                    Some(InstructionError::Capkey(CapkeyError::ExceedsMaxPerTx))
                } else if amount + self.spent_on(day_of(now)) > self.daily_limit {
                    Some(InstructionError::Capkey(CapkeyError::ExceedsDailyLimit))
                } else if !self.allowlist().contains(recipient) {
                    Some(InstructionError::Capkey(CapkeyError::RecipientNotAllowed))
                } else {
                    None
                },
            }
        }
    }

    /// The vault after a payment of `amount` at the time `now`.
    pub open spec fn after_payment(self, amount: u64, now: i64) -> Self {
        VaultPolicy {
            amount_spent_today: (self.spent_on(day_of(now)) + amount) as u64,
            last_reset_day: day_of(now) as i64,
            ..self
        }
    }

    /// The vault after its agent was revoked.
    pub open spec fn after_revocation(self) -> Self {
        VaultPolicy { is_active: false, ..self }
    }

    /// The first rule that a withdrawal breaks, if it breaks one, from a vault
    /// whose token account holds `balance`.
    pub open spec fn withdrawal_error(
        self,
        clock: Option<i64>,
        balance: u64,
    ) -> Option<InstructionError> {
        match clock {
            None => Some(InstructionError::ClockUnavailable),
            Some(now) => if self.is_active && now < self.expiry_ts {
                Some(InstructionError::Capkey(CapkeyError::VaultStillActive))
            } else if balance == 0 {
                Some(InstructionError::Capkey(CapkeyError::NothingToWithdraw))
            } else {
                None
            },
        }
    }

    /// A new vault that binds `agent` to `owner` for the tokens of `token_mint`.
    pub fn new(owner: &Pubkey, agent: &Pubkey, token_mint: &Pubkey, bump: u8) -> (vault: Self)
        ensures
            vault == Self::fresh(*owner, *agent, *token_mint, bump),
            vault.wf(),
    {
        let empty = Pubkey::default();
        let vault = VaultPolicy {
            owner: *owner,
            agent: *agent,
            token_mint: *token_mint,
            allowed_recipients: [empty, empty, empty],
            recipient_count: 0,
            max_per_tx: 0,
            daily_limit: 0,
            amount_spent_today: 0,
            last_reset_day: 0,
            expiry_ts: i64::MAX,
            is_active: true,
            bump,
        };
        assert(vault.allowed_recipients =~= Self::fresh(
            *owner,
            *agent,
            *token_mint,
            bump,
        ).allowed_recipients);
        vault
    }

    /// The seeds under which the vault signs for its tokens.
    pub fn seeds(&self) -> (seeds: VaultSeeds)
        ensures
            seeds == self.signer_seeds(),
    {
        VaultSeeds {
            owner: self.owner,
            agent: self.agent,
            token_mint: self.token_mint,
            bump: [self.bump],
        }
    }

    /// Replaces the spending envelope. What was spent today stays counted, and a
    /// revoked vault stays revoked.
    pub fn replace_policy(
        &mut self,
        max_per_tx: u64,
        daily_limit: u64,
        expiry_ts: i64,
        recipients: &Vec<Pubkey>,
    ) -> (outcome: Result<(), CapkeyError>)
        ensures
            match Self::policy_error(max_per_tx, daily_limit, recipients@) {
                Some(error) => outcome == Err::<(), CapkeyError>(error) && *final(self) == *old(
                    self,
                ),
                None => outcome == Ok::<(), CapkeyError>(()) && *final(self) == old(
                    self,
                ).after_policy(max_per_tx, daily_limit, expiry_ts, recipients@),
            },
    {
        if recipients.len() > MAX_ALLOWED_RECIPIENTS {
            return Err(CapkeyError::TooManyRecipients);
        }
        if daily_limit < max_per_tx {
            return Err(CapkeyError::PolicyInconsistent);
        }
        let mut slots: [Pubkey; MAX_ALLOWED_RECIPIENTS] = self.allowed_recipients;
        let mut i: usize = 0;
        while i < recipients.len()
            invariant
                i <= recipients.len() <= MAX_ALLOWED_RECIPIENTS,
                *self == *old(self),
                forall|j: int| 0 <= j < i ==> slots@[j] == recipients@[j],
                forall|j: int|
                    i <= j < MAX_ALLOWED_RECIPIENTS ==> slots@[j] == self.allowed_recipients@[j],
            decreases recipients.len() - i,
        {
            slots[i] = recipients[i];
            i = i + 1;
        }
        assert(slots =~= self.after_policy(
            max_per_tx,
            daily_limit,
            expiry_ts,
            recipients@,
        ).allowed_recipients);
        self.max_per_tx = max_per_tx;
        self.daily_limit = daily_limit;
        self.expiry_ts = expiry_ts;
        self.allowed_recipients = slots;
        self.recipient_count = recipients.len() as u8;
        Ok(())
    }

    /// Whether `recipient` is approved.
    pub fn allows(&self, recipient: &Pubkey) -> (allowed: bool)
        requires
            self.wf(),
        ensures
            allowed == self.allowlist().contains(*recipient),
    {
        let count: usize = self.recipient_count as usize;
        let mut i: usize = 0;
        while i < count
            invariant
                i <= count == self.recipient_count <= MAX_ALLOWED_RECIPIENTS,
                forall|j: int| 0 <= j < i ==> self.allowlist()[j] != *recipient,
            decreases count - i,
        {
            if self.allowed_recipients[i] == *recipient {
                assert(self.allowlist()[i as int] == *recipient);
                return true;
            }
            i = i + 1;
        }
        false
    }

    /// Charges a payment to the vault, if the policy permits it, and returns what
    /// is left to spend today. A payment that is refused leaves the vault as it
    /// was. A sum that no word can hold is past every daily limit.
    pub fn charge(&mut self, amount: u64, clock: Option<i64>, recipient: &Pubkey) -> (outcome:
        Result<u64, InstructionError>)
        requires
            old(self).wf(),
        ensures
            match old(self).payment_error(amount, clock, *recipient) {
                Some(error) => outcome == Err::<u64, InstructionError>(error) && *final(self)
                    == *old(self),
                None => {
                    &&& *final(self) == old(self).after_payment(amount, clock->0)
                    &&& outcome == Ok::<u64, InstructionError>(
                        (final(self).daily_limit - final(self).amount_spent_today) as u64,
                    )
                    &&& final(self).amount_spent_today <= final(self).daily_limit
                },
            },
            outcome matches Ok(remaining) ==> {
                &&& remaining + final(self).amount_spent_today == old(self).daily_limit
                &&& amount <= final(self).amount_spent_today
            },
    {
        if amount == 0 {
            return Err(InstructionError::Capkey(CapkeyError::ZeroAmount));
        }
        if !self.is_active {
            return Err(InstructionError::Capkey(CapkeyError::VaultRevoked));
        }
        let now: i64 = match clock {
            Some(now) => now,
            None => {
                return Err(InstructionError::ClockUnavailable);
            },
        };
        if now >= self.expiry_ts {
            return Err(InstructionError::Capkey(CapkeyError::VaultExpired));
        }
        if amount > self.max_per_tx {
            return Err(InstructionError::Capkey(CapkeyError::ExceedsMaxPerTx));
        }
        let today: i64 = day_number(now);
        let spent: u64 = if self.last_reset_day == today {
            self.amount_spent_today
        } else {
            0
        };
        let total: u64 = match amount.checked_add(spent) {
            Some(total) => total,
            None => {
                return Err(InstructionError::Capkey(CapkeyError::ExceedsDailyLimit));
            },
        };
        if total > self.daily_limit {
            return Err(InstructionError::Capkey(CapkeyError::ExceedsDailyLimit));
        }
        if !self.allows(recipient) {
            return Err(InstructionError::Capkey(CapkeyError::RecipientNotAllowed));
        }
        self.last_reset_day = today;
        self.amount_spent_today = total;
        Ok(self.daily_limit - total)
    }

    /// Takes the agent's right to spend away for good.
    pub fn revoke(&mut self)
        ensures
            *final(self) == old(self).after_revocation(),
    {
        self.is_active = false;
    }

    /// Whether the owner may withdraw `balance` tokens, all that the vault holds.
    pub fn check_withdrawal(&self, clock: Option<i64>, balance: u64) -> (outcome: Result<
        (),
        InstructionError,
    >)
        ensures
            match self.withdrawal_error(clock, balance) {
                Some(error) => outcome == Err::<(), InstructionError>(error),
                None => outcome == Ok::<(), InstructionError>(()),
            },
    {
        let now: i64 = match clock {
            Some(now) => now,
            None => {
                return Err(InstructionError::ClockUnavailable);
            },
        };
        if self.is_active && now < self.expiry_ts {
            return Err(InstructionError::Capkey(CapkeyError::VaultStillActive));
        }
        if balance == 0 {
            return Err(InstructionError::Capkey(CapkeyError::NothingToWithdraw));
        }
        Ok(())
    }
}

} // verus!
