# rinha

A payment intake service. Clients submit payments; the service forwards each
one to a default payment processor, or to a fallback processor when the
default one fails, and keeps a ledger of the settled payments from which it
answers per-processor summaries over a time window.

- `src/` is the verified library (Verus): the ledger kept in SQLite
  (`database`, `single_node::database`, with the table model in `ledger` and
  the SQLite statements in `sql_store`), the timestamps (`dates`), the
  forwarding decisions (`processing`, `single_node::service`), the work-queue
  state (`stealing_queue`), and the routing and balancing rules
  (`http_routes`, `redirect`).
- `app/` holds the programs: HTTP servers, websockets, threads, the clock of
  the event loops, JSON and bincode encodings, and the conversion of amounts
  between floating point and cents.
- `tests/` exercises the library.
