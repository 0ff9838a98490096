# moonkit

Verified building blocks of the Moonkit parachain toolkit: the Nimbus
consensus rules, the runtime pallets' state machines, the XCM location
helpers and the collators' decision logic, written in Verus.

- `src/` is the library, all of it verified by Verus; its public functions
  state in their contracts what they return or change. The pallets are modelled as plain storage structs whose methods
  are the pallets' calls and hooks; a hook that rejects a block has a
  companion `*_failure` function that says why, and the hook itself requires
  that there is no such reason.
- `src/scale.rs` holds the only calls into an outside crate
  (`parity-scale-codec`), behind three wrappers whose contracts are trusted.
- The collators' per-request decisions (the basic collator's step, the
  lookahead collator's plan and round) are in `src/collators.rs`; the loops
  that await the relay chain and the client stay with the node.
- `app/` holds what runs around the library in a node or a runtime: the
  proposer's error type and the runtime entry points that turn the library's
  verdicts into the pallets' panics.
- `tests/` exercises the library on the pallets' own test scenarios and on
  concrete values for each law.
