# capkey

Spending-policy vaults for agents, verified with Verus.

An owner deposits tokens into a vault and sets a policy: a cap for one transaction, a
cap for one day, an allowlist of up to three recipients, and an expiry. One agent may
pay from the vault, in the one token that it is bound to, and only within the policy. The owner can revoke the agent for
good and then take back what was not spent.

- `src/` is the library. `vault.rs` holds the rules of the policy, `accounts.rs` the
  conditions on the accounts of each instruction, `instructions.rs` the six
  instructions, `address.rs` the derivation of addresses, and `laws.rs` what is proved
  of the program as a whole, over the histories of `history.rs`.
- `app/` is the on-chain program around it: it loads accounts and the clock, has the
  token program carry out transfers, and announces events.
- `tests/` runs the library, with the real derivation of addresses.

Two functions of the Solana SDK are trusted, both in `address.rs`: the derivation of a
program address and the search for one. Beyond them the library takes the word of the
runtime that it is told the truth: that signers have signed, that accounts are what was
loaded, and that an address is in use or free as the system program says when it is
asked to create an account there. On the last rests that a revoked vault cannot be
created anew.
