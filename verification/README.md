# discord_tui

A terminal client for the Discord gateway.

- `src/` is the verified library: a JSON model of gateway payloads, read
  from and written to text through `serde_json` (`json`), the gateway events with their encoding and decoding (`event`),
  the handshakes and heartbeat loop as decisions on received payloads
  (`gateway`), token clean-up and decimal text (`text`), guilds (`guild`)
  and the interface state with its draw time (`app`). The gateway steps
  take a received frame's text and say whether the session goes on.
- `app/` is the program: it reads the token, holds the websocket, the timer
  and the terminal, and acts on the library's decisions.
- `tests/` runs the library on concrete values.
