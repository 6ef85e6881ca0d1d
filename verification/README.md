# operator_core

The verified core of a trading operator's local control plane.

- `src/` — the library, verified with Verus:
  - `risk`: the pre-trade risk gate (rejection reasons, operator sign-off in
    live mode, size cap), with its laws.
  - `fusion`: regime weights and the discrete conclusions of fusing model
    outputs (consensus, abstention, dissent, evidence, cited sources).
  - `model_router`: heuristic model adapters.
  - `connectors`: the capability registry and the approved-source crawler.
  - `audit`: the tamper-evident hash chain of audit records.
  - `execution`: order staging after risk approval.
  - `orchestrator`, `desktop`: request-level decisions and runtime facts.
  - `text`, `digest`, `domain`: shared text helpers, SHA-256, vocabulary.
- `tests/` — tests of the library on concrete values.
- `app/` — the HTTP services, async plumbing, file I/O, serde wire types and
  the floating-point measures (weighted averages, thresholds, backtests).
