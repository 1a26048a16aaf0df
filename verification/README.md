# gio_bot

A Discord bot that links Discord users to generals.io usernames and shows
generals.io profiles, with its decision logic verified in Verus.

- `src/` is the verified library:
  - `commands`: the slash-command table, what is registered with Discord,
    and which command an interaction is routed to;
  - `register`: the `/register` checks as a step function from answers to
    actions, and the generals.io API addresses;
  - `options`: reading the options of an interaction;
  - `profile`: the estimated IQ and the `/profile` and `/user` answers;
  - `embeds`: the text of every reply;
  - `database`: how Discord ids are stored as signed integers;
  - `text`: decimal numbers, URL encoding, lower-casing.
- `app/` is the program: the Discord gateway (serenity), web requests
  (reqwest), the SQLite table (sqlx), and the floating-point part of the
  star arithmetic.
- `tests/` exercises the library on concrete values.
