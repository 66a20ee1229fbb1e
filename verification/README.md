# gt_trav

The verified core of a desktop HTTP(S) debugging proxy, written in Verus.

* `src/logs.rs`, `src/logs/` — log levels and entries, bounded log stores
  (the newest `max_logs` entries, oldest first), the log and event-log
  state, and message decoding (UTF-8, then GBK, then GB18030, then a
  hexadecimal listing).
* `src/componts.rs` — tab bookkeeping, window toggles and the proxy's
  start/stop switch.
* `src/backend/proxy/` — parsing of request targets and `Host` headers,
  session numbers, the per-direction relay state machine, certificate
  profiles and their issue with `rcgen`, and the commands that install the
  authority on each platform.
* `src/strings.rs` — string helpers shared by the above.
* `app/` — the runtime around the library: tokio channels feeding the
  logs and the clock readings that stamp their entries, certificate files,
  fresh keys and system commands, the accept loop with its random session
  numbers, socket relays, tabs and window controls.
* `tests/` — tests of the library on concrete values.
