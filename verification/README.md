# openstack_tui

A terminal dashboard for OpenStack clouds (`os9s`), with its core logic
verified by Verus.

## Layout

- `src/` — the verified library:
  - `config/` — `clouds.yaml` model, field defaults, region lists, and the
    order in which the configuration file is looked up.
  - `auth/` — Keystone v3 request bodies, token responses, timestamps and
    the service catalog built from a token's endpoints.
  - `client/` — endpoint resolution (interface, public fallback, trailing
    slashes), each API request as plain values (method, URL, headers), Swift
    account headers, and the HTTP client settings, applied through a few
    trusted wrappers of `reqwest`.
  - `state/` — the shared dashboard state, its aggregates, and the rules by
    which each poll result and token refresh updates it.
  - `ui/` — the key map and navigation model, tabs and status bar text,
    colour classes, and the filtering and selection of each view.
  - `strmap.rs`, `text.rs` — a string-keyed map with a `Map` view, and the
    string helpers (case-insensitive search, UTF-8 safe truncation, decimal
    parsing) the rest relies on.
- `app/` — the program around the library: command line, file and network
  I/O, the async pollers, and terminal drawing.
- `tests/` — tests of the library on concrete values.
