# zero2prod (verified core)

The logic of a newsletter service, verified with Verus.

- `src/configuration.rs`: settings, the Postgres connection strings and the
  decimal writing of the port.
- `src/domain.rs`: subscriber e-mail addresses, checked with `validator`.
- `src/issue_delivery_worker.rs`: the delivery worker as a state machine
  (`start`, `step`), the wait between executions, and the laws of its runs.
- `src/routes/`: the error-chain report, the flash-message text of the admin
  forms, the newsletter form's idempotency key, the dashboard's access rule.
- `app/`: the program around it: configuration file and environment,
  database queries, HTTP handlers, the worker loop.
