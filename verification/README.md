# vps_monitor

A self-hosted monitor for a fleet of machines: agents report, the server keeps the traffic
accounts, sends alerts and shows the fleet. The rules are a library whose contracts are proved
with Verus; a program around it does the input and output.

## Layout

- `src/` is the library. It is verified, but for the few functions named below that call other
  crates.
  - `db` — what is stored and how each operation changes it: reports, traffic accounts, the
    monthly reset, tokens, sessions.
  - `api`, `agents`, `auth`, `notify` — what is done with each request: a function from what has
    just happened to what to do next.
  - `reply`, `config` — answers, settings, headers.
  - `moment`, `text`, `figure` — instants and dates, strings, numbers.
  - `laws` — what holds across operations.
- `app/` is the server: HTTP, SQLite, outgoing messages. It carries out what the library decides.
- `tests/` runs the library on concrete values.

## What is taken on trust

A few functions call other crates, and their contracts are believed: the clock, calendar and
RFC 3339 notation of `chrono` (in `moment`), password hashes of `argon2` and the constant-time
comparison of `subtle` (in `auth`), and the random bytes of `rand_core` (in `db`). Each has a
comment that says what is claimed.

Load, memory and traffic are floating-point numbers. The library carries them through unchanged
and writes sums and differences down as a `Figure`; the server works them out, and tells the
library how numbers compare.
