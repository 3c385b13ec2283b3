# ndex

The backend of ndex, a search service that indexes a user's Notion workspace, Google
calendars, drive files and mailbox into a Typesense collection of their own.

- `src/` is the library, verified with Verus: the records of the services it reads, the
  documents it indexes and how each is derived, the account rules (sign-up, login, updates,
  integrations, session claims), the paths, addresses and request bodies it sends, and the
  state machine that runs an indexing request. Calls into outside crates (bcrypt, chrono,
  serde_json, openssl, validator, oauth2) stand behind small trusted functions whose contracts
  name what they return.
- `app/` is the web server around it (axum, sqlx, reqwest, lettre, jsonwebtoken): it reads
  requests and replies, talks to Postgres, Google, Notion, Typesense and the mail server,
  and hands plain values to the library.
- `tests/` runs the library on concrete inputs.
