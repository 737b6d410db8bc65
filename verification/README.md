# vibe_kanban

The verified core of a local Kanban board service (projects, statuses, tags,
issues, assignees, relationships, comments), written in Verus.

- `src/` is the library, every function verified against its contract:
  - `color`: validation of `"H S% L%"` colours, specified over the text's
    characters (split on spaces, unsigned parsing as Rust's `str::parse`).
  - `search`, `sqltext`, `api`: the translation of a client's issue search into
    the store's request, and the SQL text (conditions, quoting, escaping,
    ordering, paging) that the store runs.
  - `priority`, `relationship`: stored words of priorities and relationship types.
  - `issues`, `workflow`: short issue identifiers, the meaning of update
    requests, and the decisions that move issues between statuses.
  - `bootstrap`: first-boot data and bootstrap decisions.
  - `errors`, `models`, `jwt`, `ids`, `time`, `text`: error answers, records and
    requests, token claims, identifiers, timestamps and text helpers.
- `tests/` runs the library on concrete values.
- `app/` holds what Verus does not see: the SQLite store (`sqlx`), the HTTP routes
  (`axum`), first-boot seeding, and token encoding/decoding (`jsonwebtoken`).
