# flute

The library behind `flute`, a command-line client for the Flute payments
platform, written in Verus: the request bodies, the API requests, the output
tables and envelopes, the error model, money parsing, log redaction and the
POS long-poll decisions are executable Rust with `requires`/`ensures`
contracts that Verus proves.

## Layout

- `src/` — the verified library, one module per concern:
  - `text`, `json`, `table` — strings, JSON documents (numbers keep their
    literal text) and fixed-width tables and cards;
  - `money`, `transactions`, `ach`, `customers`, `devices`, `tokens`,
    `subscriptions`, `pos`, `address`, `terminals`, `settlements` — request
    bodies and table-mode output per command group;
  - `api`, `api_error` — the API calls as data (method, path with query,
    body, expected reply), the 401 retry decision, and the mapping of error
    responses;
  - `output`, `auth`, `config`, `redact`, `util` — output modes, envelopes,
    exit codes, credentials and profiles, and masking of sensitive fields
    in debug logs.
- `tests/` — tests of the library on concrete values.
- `app/` — the program around the library: argument parsing, the keychain,
  the config file, HTTP, tracing, and printing.

`serde_json`, `rust_decimal` and `url` are called from the library through a
few small trusted wrappers whose contracts state what those crates do; every
other outside crate is used only by `app/`.
