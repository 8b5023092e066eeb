# archipelago_rs

A client for the [Archipelago](https://archipelago.gg) multiworld protocol whose
decisions are proved with Verus.

- `src/` is the verified library. It performs no input or output: every operation
  is a sequence of steps, each of which names one thing to do outside and is told
  how that went. `client` is the entry point, `laws` states what holds over more
  than one step, and `outside` lists everything that is taken on trust.
- `tests/` runs the library on concrete packets.
- `app/` performs the steps with tokio, native TLS, ratchet and serde, and holds
  the async `ArchipelagoClient`.
