# truffle

A mesh of devices on a private network: who is there, how they reach each other,
and how files, messages and requests go between them.

`src/` holds what is decided and computed, each function with its contract:

- `network/`: rows and events of the sidecar, whose logins are admitted, requests and
  their replies, framing of datagrams.
- `session/`: the registry of peers, their identities, handles and connections.
  `session/laws.rs` states what every operation keeps.
- `file_transfer/`: offers, paths, the head of a stream, and the two sides of a
  transfer as state machines.
- `daemon/`: requests of clients, their answers, and notifications.
- `tui/`: what the interactive interface shows and what keys and events do to it.
- `commands/`, `resolve.rs`: updates, the status, and names of peers.
- `text.rs`, `text_map.rs`, `json.rs`, `digest.rs`: what the others build on.

Times, addresses and floating-point numbers are carried as numbers, texts and
bits. What is done on the disk, the network and the terminal stands in `app/`,
which asks the library what comes next.
