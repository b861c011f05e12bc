# bulk_status

Bulk transaction status updates for the administration of a payment service, with the decisions
verified by Verus.

`PATCH /admin/transactions/bulk-status` moves up to 10,000 transactions to a status. A batch of
at most `BULK_STATUS_ASYNC_THRESHOLD` transactions (50 where it is not set) is updated at once
and answered with `200 OK`. A larger one is stored as a job and answered with `202 Accepted`; the
job works through its transactions in chunks of 200, and
`GET /admin/transactions/bulk-status/jobs/:id` tells how far it is.

- `src/` is the verified library. It decides: what is refused, what is updated at once, what a
  job does next, what a caller is told, where everything is reached and what guards it. It
  never waits, reads or sends. `job_laws.rs`, `poll_laws.rs` and `route_laws.rs` state what holds
  of every run, of what a poll is answered and of all routes.
- `app/` is the HTTP side around it: handlers, SQL, JSON and the axum router.
- `tests/` runs the library on concrete values.
