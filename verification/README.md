# opencode_rs

A client for the OpenCode server, with its logic verified by Verus.

- `src/` is the verified library: the data types exchanged with the server,
  the request plan of every API endpoint (method, escaped path, query pairs,
  body), the aggregation of per-session status tables, the routing of stream
  events to sessions, and the decisions of the reconnecting event-stream
  loop (connection query and resume header, scoped by directory and
  workspace on the `/event` stream and unscoped on `/global/event`, what
  to do on each stream event, and the reconnection delays). The k-th delay
  since the last opened connection is stated as a jitter of the k-th
  scheduled base delay: the initial interval first, then doubled by backon
  and capped at the maximum interval. Every delay is at least the smaller of
  the two intervals, there is no retry limit short of `usize::MAX`, and the
  sequence restarts at each opened connection. How much the random jitter
  adds, and the exact value of backon's single-precision doubling, are
  left to backon.
- `app/` holds what performs I/O: the HTTP client and the API handles, the
  event-stream subscriptions that run the library's loop on tokio, and
  serde-enabled copies of the library's types with conversions both ways.
- `tests/` exercises the library on concrete values.
