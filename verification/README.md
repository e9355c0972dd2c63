# vibeping_push_poc

A local Web Push sender for testing notifications on an iPhone PWA, split in two:

- `src/` — the library, verified with Verus: subscription validation
  (`subscription`), the VAPID key and its saved form (`vapid`, `base64url`),
  the JSON payload and the push request (`json`, `push`), the reading of the
  provider's status code, the status report and the reset bookkeeping
  (`status`), and the file locations (`paths`). Calls into `base64ct`,
  `web-push-native`, `http` (through `axum`), `serde_json` and `chrono` sit behind small
  trusted wrappers whose contracts are documented where they are declared.
- `app/` — the program: command line, files, the axum server and the HTTPS
  call to the push provider.
- `tests/` — tests of the library through its public API.
