# chat_server

The rules of a chat server, proved with Verus, and the HTTP and database
code around them.

- `src/` — the verified library: chat membership rules and chat kinds
  (`chat`), errors and how they are answered (`error`), sign-up and sign-in
  replies (`auth`), the server-time header (`server_time`), decimal
  rendering of integers (`decimal`), and properties spanning them (`laws`).
- `app/` — axum handlers, sqlx queries and the tower middleware; they ask the
  database and hand the answers to the library, which decides.
- `tests/` — tests of the library on concrete values.

`app/` also depends on `chrono`, for the `created_at` timestamp columns of
the chat and workspace rows.
