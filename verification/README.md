# conduit

A blogging service in the shape of the "RealWorld" API (users, profiles,
articles, tags, favorites, comments), written as a Verus-verified library
with a thin HTTP program around it.

- `src/` is the library. Its functions decide everything the service decides:
  sign-up rules, sign-in, tokens and passwords, who may change what, how
  stored records become answers, pagination, and how errors are answered.
  Each carries a contract that Verus proves. Calls into `regex`, `slug`,
  `rand`, `pbkdf2`, `jsonwebtoken`, `serde_json` and `chrono` go through
  small trusted wrappers whose contracts say what those crates document.
- `app/` is the HTTP server (actix-web) and the store (diesel on
  PostgreSQL): it reads requests and rows, hands plain values to the library,
  and writes and answers what the library returns.
- `tests/` runs the library on concrete inputs.
