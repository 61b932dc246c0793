# moonflux_curve

A bonding-curve launchpad: a pool sells one billion tokens against SOL along a
constant-product curve with virtual reserves, takes a platform fee on the SOL side,
and graduates once its target is raised. A graduated pool is handed over to a
migration wallet.

The library decides every instruction on plain values and is verified with Verus.
The program in `app/` loads accounts, stores records and carries out the account
operations that the library returns.

- `src/config.rs`: the global configuration, `initialize_global`, `update_global`,
  `toggle_pause`
- `src/curve.rs`: the record of a pool, `create_pool`
- `src/trade.rs`: `buy` and `sell`
- `src/migration.rs`: `migrate`
- `src/actions.rs`: the account operations and what they move
- `src/pubkey.rs`, `src/errors.rs`, `src/constants.rs`: addresses, refusals, parameters
- `src/laws/`: what is proved of the instructions taken together
- `app/`: the Anchor program
