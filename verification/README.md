# Program Station

The backend of a small blogging site: accounts with e-mail verification codes, login
tokens, posts with covers and pictures, follows, likes and collections, comments,
notifications, reports, labels, full-text search and the management pages.

## Layout

- `src/` — the library, verified with Verus. It holds everything the endpoints decide:
  the SQL statements they run (`queries`), how rows read back are joined with names and
  defaults (`merge`), the replies and their texts (`reply`), the transaction steps
  (`tx`, and the registration in `auth`), signing and reading login tokens (`token`), pending verification codes
  (`email`), upload paths and URLs (`paths`), settings (`config`), number and text
  encoding (`text`), and the per-endpoint checks (`auth`, `posts`, `users`).
- `app/` — the server around it: TLS and routing with actix-web, the MySQL pool,
  sending mail, the search index, files, timers, and JSON.
- `tests/` — tests of the library on concrete values.

The library's public proof functions state the properties that hold across calls, such
as reading back a number that was written, or what a stored verification code accepts.
