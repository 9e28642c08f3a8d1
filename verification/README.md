# nut-monitor-web

A small monitor for UPS devices driven by Network UPS Tools: it reads the
`upsc` listing of a UPS, shows it on a web dashboard and as JSON, and pushes
alerts to registered phones through Firebase Cloud Messaging.

Layout:

- `src/` — the verified library (Verus):
  - `text.rs`: character-level model of `str` operations (lines, split,
    trim, unsigned number parsing, decimal formatting) with proved helpers;
  - `metrics.rs`: the `upsc` listing parser and the status wording;
  - `alerts.rs`: the alert state machine of the background monitor, with its
    laws (no repeated alerts, re-arming, ignored readings, status changes);
  - `dashboard.rs`: the dashboard fields and badge class;
  - `web.rs`: device records, HTTP status decisions, the notification test;
  - `fcm.rs`: the signed service-account assertion (via `jsonwebtoken`) and
    the FCM endpoints;
  - `config.rs`: settings from environment variable values.
- `app/` — the server program: environment, SQLite store (`rusqlite`),
  running `upsc`, HTTP calls (`reqwest`), Axum routes, Askama page, logging.
- `tests/` — tests of the library.
