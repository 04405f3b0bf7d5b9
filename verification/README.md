# vault_programs

Verified account rules of small Solana programs built on Anchor:

- `vault`: a token vault whose admin whitelists users and mints to them;
  whitelisted users deposit into the vault and withdraw what they deposited.
- `hook`: the transfer hook of the vault's mint, which lets the vault send
  and otherwise asks for the source owner's whitelist entry.
- `escrow`: taking a timed escrow offer.
- `vrf`: requesting and consuming verifiable randomness.
- `registry`: a plain per-user whitelist.

`src/` holds the rules, verified with Verus: each instruction's account
checks in the order the framework runs them (signers, owning programs,
program ids, duplicate mutable accounts, writability, addresses derived from
seeds, mints, admin, accounts already in use), its decision, the accounts it creates, the
accounts it closes and where their lamports go, how a deposit or withdrawal
is recorded once the token transfer has run, and the token instructions it
hands to the token program. Laws across calls (a withdrawal undoes a
deposit, the vault stays backed, one-time initializations, closed entries
refused by the hook) are stated as proof functions. Address
derivation, SPL instruction building and account unpacking are called in
`anchor-lang`, `anchor-spl`, `spl-tlv-account-resolution` and
`ephemeral-vrf-sdk` through small trusted wrappers whose contracts state what
those crates' sources show.

`app/` is the on-chain edge: it reads `AccountInfo`s, calls the rules,
performs the account creations and cross-program invocations they return,
and writes back the balances and contents they decide.

`tests/` drives the rules, including a whole vault flow against a simulated
token program.
