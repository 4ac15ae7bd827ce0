# zetta_chat

A terminal chat client and its relay server over the `zetta-transport`
protocol. The decisions of both programs are a Verus-verified library:

- `src/text.rs`: character-level helpers (search, comparison, decimal
  numbers) and the trusted calls into `std` and `unicode-width`.
- `src/app.rs`: the client's screen state: the typed line, the history, the
  status, what each key and network report does to them, and where the input
  line scrolls and the cursor stands.
- `src/network.rs`: the client's connection session, a state machine that
  binds, connects, opens a stream, relays messages, sends keep-alives and
  reconnects after failures, with its laws.
- `src/server.rs`: the server's command line, its announcements, how a
  message is shown to each user, and what one user's stream does on each
  event, with the law that a message reaches the other users unchanged.

`app/` holds the programs themselves (terminal, timers, network I/O), which
perform what the library decides. Run under the name `server`, the program is
the relay server; otherwise it is the client.
