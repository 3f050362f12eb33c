# private_dex

The state logic of a private DEX program for Solana ephemeral rollups, verified with Verus.

Users hold up to ten token positions in a user account; they deposit into and withdraw
from those positions, transfer between accounts, and trade against constant-product pools
whose reserves are kept as numbers. The library decides every one of these state changes
and proves, among other things, that

- a position is found by its mint, or else takes the first free slot;
- transfers, swaps and removals of liquidity move amounts without creating or losing any:
  per mint, the sum of the balances involved (and of the pool's reserve) is kept;
- no mint ever occupies two slots, and free slots hold nothing;
- a refused instruction changes no account, and a paused configuration refuses every
  user instruction;
- only the administrator initializes or updates the configuration.

Layout:

- `src/pubkey.rs` — 32-byte addresses;
- `src/state.rs` — configuration, pools, user accounts and positions;
- `src/utils.rs` — finding, crediting and debiting positions, with the balance model and its laws;
- `src/instructions/` — one module per instruction, each with its context type, its
  outcome specification and, where it moves amounts, its conservation law;
- `app/` — the Anchor program around the library: account constraints, token transfers,
  calls to the constant-product curve, delegation and permission groups.
