# rustshell

A remote shell client for devices running RustDesk: it asks a rendezvous
server for a connection to a device, connects directly or through a relay,
verifies the device's identity, sets up end-to-end encryption, answers the
password challenge and runs a remote terminal.

The decisions are a verified library (`src/`):

- `keys` — keyboard events to the bytes a remote terminal expects;
- `crypto` — the rendezvous server's key, signed identity records, sealing
  the session key, and the password answer;
- `session` — the connection handshake as a state machine (`Session::step`);
- `terminal` — the terminal session: replies, ticks and typed keys.

`app/main.rs` is the program around it: command line, console, network and
protocol messages.
