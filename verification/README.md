# quinte

A websocket server that answers JSON frames with the contents of a notmuch
mail database.

- `src/` is the verified library: the frames and what the server answers to
  each (`server`), how the values notmuch hands out become messages and
  errors (`notmuch`), and the error type (`lib.rs`).
- `app/` is the program: the websocket and TCP handling, the JSON encoding of
  frames, the calls into the notmuch C library and the file reads.  It does
  the work the library asks for and hands the results back to it.
- `tests/` runs the library on concrete frames and notmuch results.
