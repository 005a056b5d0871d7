# corvid_runtime

The support library of the Corvid runtime, written in Verus: every function
in `src/` carries a `requires`/`ensures` contract that Verus proves, and the
properties that span several functions are stated and proved as public
proof functions.

## Layout

- `src/` — the verified library.
  - Approvals: `approval_records`, `approval_policy`, `approval_authorization`,
    `approval_queue` (contracts, queued approvals and their audit trail),
    `approval_token`, `approval_card`, `approval_ui`, `approvals`,
    `approval_host` (site predicates, preapproved requests, host answers),
    `approver_bridge` (loading an approver program).
  - Authentication: `auth_records`, `auth_checks`, `auth_store` (actors,
    sessions, OAuth states, API keys and their audit), `jwks`.
  - Lineage: `lineage`, `lineage_render`, `lineage_redact`, `lineage_eval`,
    `lineage_drift`.
  - Catalog and dispatch: `catalog`, `catalog_invoke`, `agent_handles`,
    `scalar_marshal`, `effect_filter`, `filter_eval`, `grounded_handles`.
  - Everything else: `cache`, `citation`, `db`, `dotenv`, `ensemble`,
    `http`, `human`, `io`, `json`, `prompt_bridge`, `runtime_config`,
    `calibration`, `adversarial`, and the shared `text`, `digest`, `errors`,
    `floatbits`.
- `tests/` — tests of the library, run against the compiled crate.
- `app/` — the runtime's edges around the library: files, the network,
  SQLite, the terminal, process environment, thread-local and global state,
  and the floating-point arithmetic the library leaves to its callers.

Floating-point values are held as the bits of their `f64` (`*_bits`
fields); the library compares and classifies them exactly, and anything
that needs float arithmetic or formatting happens in `app/`.
