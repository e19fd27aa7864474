# hypecli

The `earn` and `send` commands of a Hyperliquid command line, with their decisions
verified by Verus.

- `src/` is the verified library. A command is a state machine: it prints lines, makes
  one request at a time, and answers each reply with the next step.
  - `earn` supplies to and withdraws from the borrow/lend reserve and reports its rates:
    `pct` shows rates as percentages, `report` lays out the status report, `run` is the
    state machine, `laws` states what holds of every percentage and every run.
  - `send` transfers assets: arguments and transfers in `send.rs`, the state machine in
    `run`, what holds of every run in `laws`.
  - `decimal` and `address` state what `rust_decimal` and `alloy` compute, `market` holds
    the plain types of the exchange, `text` writes integers.
- `app/` performs the requests against the exchange, through its SDK `hypersdk`. The
  package does not list the SDK: it brings more than five hundred packages, of which the
  library needs none. A program that builds `app/` adds it.
- `tests/` runs the library.
