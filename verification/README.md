# whim

Server-side logic of the whim shell, verified with Verus.

- `src/` — the verified library: configuration (`~` expansion of TLS paths),
  the TLS key loader's decisions (`encryption`), I/O failure messages
  (`error`), the values behind the routes and the HTTP-to-HTTPS redirect
  target (`routing`), the client link state machine (`client`), the shell data
  model (`shell`), and at the crate root the greeting replies and a key loader
  that passes failures on unprefixed.
- `app/` — the server program: warp routes, websocket plumbing, file and
  process I/O, and serializable copies of the library's reply values.
- `tests/` — tests of the library.
