# feishu-bot

Forwards Sentry alerts to Feishu (Lark) group bots: a webhook endpoint checks the
Sentry signature, routes each alert by project, environment and level to a group,
renders an interactive card and posts it, and keeps a history that can be resent.
An admin panel and a JSON API manage groups, rules and project names.

Layout:

- `src/` — the verified library (Verus). Routing patterns and rules, the card
  builder and its templates, the payload accessors, HMAC-SHA256 signature checks,
  the webhook and resend flows as state machines, the admin path mapping, the
  paging and filtering of the history, and the helpers of the maintenance commands.
  Calls into `sha2`, `chrono`, `mime_guess`, `serde_json`, `rand` and `reqwest`
  (its `StatusCode`, from `http`) go through
  small trusted wrappers whose contracts are documented where they stand.
- `app/` — the program around it: command line, HTTP server, SQLite store, JSON
  (de)serialization, logging, and the network and file-system work that the
  library's state machines ask for.
- `tests/` — tests of the library on concrete values.
