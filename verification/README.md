# dao_rollup

A rollup, verified with Verus: ledgers that signed transactions change, the
bridge that feeds deposits into them from a chain, and the sequencer that runs
them.

- `src/` is the library. `engine` is the rollup of a DAO, `tx` a ledger of wagers
  on chess, `bridge` reads the event logs of the chain below, `sequencer` decides
  what to do with each message, `read` is the script that asks a sequencer. What
  holds of them as a whole is proved in `engine_laws`, `tx_laws`, `bridge_laws`,
  `sequencer_laws` and `read`.
- Amounts are integers of 256 bits that wrap around (`numbers`); accounts are kept
  in ordered tables (`table`).
- Signature recovery and Keccak (`crypto`), ABI decoding (`abi`) and the rules of
  chess (`board`) come from other crates, each call behind a contract that is
  believed, not proved.
- A transaction that has no defined answer, such as an illegal move or a vote, and
  a log that is malformed, are left out by the `requires` of the functions that
  carry them out. `try_chain_event_loop`, `try_execute` and `try_handle_log` have no
  `requires`: they return `None` for such input and leave the state as it was. Where
  a function takes what was found out as an argument (`apply`, `execute_signed`),
  `is_answerable` tells whether it may be called.
- `tests/` runs the library; `app/` holds the processes around it, which receive,
  parse and answer messages. They run on a Kinode (`app/kinode.rs`).
