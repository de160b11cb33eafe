# backend

Decision logic of an EV telemetry backend's internal jobs, verified with
Verus.

- `src/` — the verified library. Job kinds and backend resolution, job
  leases and run bookkeeping, the charging-session reconstruction (session
  windows, per-signal series, state-of-charge endpoints, durations), KPI
  snapshot planning and the lock check, cohort rankings with their laws, the
  output synchronization plan of the bridged PostgreSQL mode, and the rows an
  ingest batch writes for diagnostics and session events.
- `app/` — the storage edge: SQLite and PostgreSQL queries, clocks, and the
  floating-point aggregates (means, medians, score blends), each calling into
  the library for its decisions. Metric formulas, scoring and catalog rules
  that the service supplies are reached through the `ServiceModel` trait.
- `tests/` — tests of the library on concrete values.
