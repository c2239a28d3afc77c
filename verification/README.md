# salvage_state

The game-state rules of a salvage-boat career, written in Verus: the port
(yard, refit slots, repairs, refinery, market, insurance, route briefings),
departures and the wreck workspace (scans, sections, power, stabilization,
recovery and loss of targets), packing the haul and the return voyage, the
voyage ledger and career dossier, and the integrity checks a save must pass
to be loaded.

The public functions in `src/` state in their `ensures` clauses what they
return and how they change the session, and Verus proves the bodies against
those contracts. Properties that span several calls (cycles of the operating
orders, bounties and contracts that settle once, permanent blueprint unlocks,
grids that rebuild to themselves, a refit slot that brings back what it
stored, a session in play that is saved and loads back as itself) are proof functions in
`src/laws.rs`, `src/rebuild.rs`, `src/persistence.rs`, `src/loadout.rs` and
`src/reload.rs`.

Layout:

- `src/` — the verified library, one module per rule area; `session.rs`
  holds the session state, `data.rs` the authored catalog it reads.
- `tests/` — scenario tests run against a small hand-built catalog.
- `app/` — the save-file layer: serde copies of the session types and JSON
  reading and writing around `GameSession::to_save` and `from_save`.
