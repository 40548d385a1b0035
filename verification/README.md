# listaisto

The backend of ListaIsto, a shared shopping-list web application: lists with
a pantry side and a to-buy side, sharing with other accounts and through
expiring public links, and accounts whose passwords are stored as
`pbkdf2_sha256$<iterations>$<salt>$<base64hash>`.

## Layout

- `src/` — the verified library (Verus). Every decision the server makes
  lives here with its contract: password hashing and checking, the
  same-origin guard on redirects, toggling and quantity steps of items,
  share-link expiry and permissions, the JSON and page data of every route,
  and the configuration read from the environment.
  - `hashing.rs`, `text.rs`, `config.rs`, `time.rs`, `random.rs`, `db.rs`,
    `auth.rs`, `mailer.rs`, `templates.rs`
  - `handlers/` — one module per group of routes.
- `app/` — the server around it (axum, sqlx, tower-sessions, askama,
  lettre): reads requests, queries MySQL, sends mail, and hands what came
  back to the library.
- `tests/` — tests of the library on concrete values.

Calls into `sha2`, `pbkdf2`, `base64`, `rand` and `chrono` are made from
`src/` through small trusted wrappers whose contracts say what the crates
document; everything else in `src/` is proved.
