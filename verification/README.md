# rustdesk_update_api

An update service for RustDesk clients built from a fork: it reads the latest
GitHub release of the fork and answers clients in the form RustDesk expects
(download page, version tag, SHA-256 checksum).

- `src/` is the verified library (Verus): version comparison (`version`), asset
  selection (`asset`), the request/answer flow (`update`) and text helpers (`text`).
  The `semver` crate, std's `str::to_lowercase` and the `http` crate's
  `HeaderValue::from_str` are called behind trusted wrappers whose contracts are
  stated in their doc comments.
- `app/` is the HTTP server (axum, reqwest, tokio): it reads requests and the
  environment, fetches the release, and hands everything to the library.
- `tests/` runs the library on concrete requests and releases.
