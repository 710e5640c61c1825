# soteria

Verified models of three Solana programs used to teach program security, each
in a hardened and in a deliberately weakened variant:

- `multisig`: a role-based multisig wallet (members with Admin, Proposer and
  Executor roles, governance and SOL-transfer proposals, approval thresholds,
  timelocks, expiry and a pause switch);
- `nfts`: NFT staking on Metaplex Core (a collection with minting and staking
  counters; staking freezes an asset and records in its attributes when it was
  staked and how long it has been staked in total);
- `escrow`: a token escrow (a maker locks token A in a vault and asks for
  token B; a taker pays and receives the vault's content).

Each instruction is a verified function over plain account values: it checks
its accounts and arguments and either fails, leaving them unchanged, or
updates them. Its contract states exactly which error comes on which input
and what the accounts hold afterwards. The cross-instruction promises of the
programs (pausing blocks operations, an approval counts once, a staking cycle
adds its duration to the accumulated time, a take reads back the offer that
the proposal wrote, ...) are proved as `law_*` proof functions.

Shared modules: `key` (32-byte addresses), `num` (integer facts), `approvals`
(approval bitmaps), `decimal` (base-10 text of `i64` values, with a proof that
parsing reads back what formatting wrote).

Layout: `src/` is the verified library, `tests/` holds scenario tests and
edge cases, and `app/` holds the on-chain glue that runs the library inside
the programs: Anchor account structs and account encodings for the multisig
and NFT programs, the Pinocchio processing of the escrow, the clock, the
Metaplex Core, system and token program calls, and the conversions between
the runtime's values and the library's.
