# whatrust

The verified core of a lightweight WhatsApp Web desktop client: the app-lock
configuration and its Argon2id password hashing, the start-up / close / idle
lock decisions, tray badge and menu behaviour, which window a reveal or toggle
request brings up, and the Windows call-popup detection.

- `src/` — the library, verified with Verus (`applock`, `lifecycle`, `window`,
  `tray`, `call_popup`, `biometric`, `text`).
- `tests/` — tests of the library on concrete values.
- `app/` — the unverified shell: `app-lock.json` persistence (serde), the idle
  watcher (user-idle), start-up chores (store-id backfill, watcher threads) and
  the Win32 call-popup watcher (windows). The desktop framework's wiring
  (windows, tray, commands, notifications) is not part of it.
