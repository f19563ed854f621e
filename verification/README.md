# voter_stake_registry

Verified bookkeeping for two Solana voter-weight addins of spl-governance:
the voter stake registry and the older governance registry. Voters deposit
tokens of configured mints, optionally locked up under daily, monthly,
cliff or constant schedules; locked tokens vest over time, may be clawed
back where the deposit allows it, and add lockup-scaled vote weight.

## Layout

- `src/` — the library, written in Verus; every function has a contract
  and is proved.
  - `state/` — lockups, deposit entries, voting mint configurations,
    exchange rates, registrar and voter of the voter stake registry.
  - `instructions/` — the registry's instructions as functions from state
    and inputs to new state and the amount of tokens to move; errors leave
    the state unchanged. `instructions/properties.rs` states what holds
    across them (locked tokens never leave, clawback takes exactly the
    locked tokens, resets never shorten a lockup, ...).
  - `governance_registry/` — the same for the governance registry: its
    accounts, access control, instructions and their properties.
  - `governance.rs`, `pubkey.rs`, `math.rs`, `error.rs`, `events.rs` — the
    governance token owner record, account addresses, powers of ten,
    errors and event records.
- `tests/` — tests on concrete values, run against the compiled library.
- `app/` — a command line tool that decodes voter accounts, and the
  on-chain glue: reading clocks, sysvars and governance records, and the
  token program calls the instructions decide on.
