# homefront

The core of a self-hosted home control dashboard for Home Assistant,
written in Verus and proved against its contracts.

- `src/` — the verified library:
  - `config` — the configuration file's keys, their defaults, and which files are complete;
  - `ha` — entity states, the entity state cache, and the HA API addresses;
  - `text` — replacing every occurrence of a pattern, and reading a port number;
  - `api` — setup mode, which route groups are served, the entity endpoints' answers;
  - `auth` — bcrypt password checks and hashes, and signed session tokens;
  - `login` — which users may sign in, the whole login answer, session settings, and which requests carry a live session;
  - `setup` — the first-run wizard: discovery, connection test, the written configuration and owner account;
  - `socket` — what the browser WebSocket does on each event;
  - `frontend` — the browser's stores and pages;
  - `laws` — properties spanning several operations.
- `tests/` — tests on concrete values.
- `app/` — the server itself: HTTP routing, the database, HA requests, file I/O.
