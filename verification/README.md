# p2p_lib

Peer-to-peer networking over tailcat (WireGuard + DERP relays, no control
plane), as a verified core and a thin native layer.

- `src/` — the verified library. Each operation of `Server`, `Client`, `Conn`
  and `PrivateKey` takes the native entry points it needs as function
  arguments, and its contract states what it hands to them and what it returns
  for every outcome: C-string conversion (`to_cstring`), handle lifecycle
  (`Handle`: a handle is closed at most once), error reporting (`take_error`),
  read/write result interpretation, timeout conversion and `PeerPath` parsing.
- `app/` — the user-facing API: binds the tailcat_cgo C ABI and passes its
  functions to the verified core; adds `Drop`, `io::Read`/`io::Write` and the
  `std::error::Error` impl of the error type.
- `tests/` — tests of the core with stand-in native functions.
