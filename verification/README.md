# ygg_admin

The decision logic of a blog's admin pages (notes editor, uploads, logs,
listings, trash, settings, assets, comments, dashboard, friends, MCP tokens,
posts, code runner, profile), written in Verus with contracts that the
verifier proves.

- `src/` is the verified library, one module per page family, plus `text`
  (trimming, integer parsing and printing) and `dates` (the one place where
  `chrono` formats a timestamp).
- `tests/` holds ordinary Rust tests run against the compiled library.
- `app/` is the unverified rim: browser calls through `js-sys`, `serde`
  copies of library types, and the few computations that need floating point.
