# chat_ffi

The C interface of a chat client. What it decides is verified with Verus; what it does to memory, files,
threads and the network is ordinary Rust.

- `src/` is the verified library.
  - `error`: what goes wrong at the boundary, and the code that reaches the caller's error slot.
  - `text`, `address`: C strings, and addresses read from them.
  - `config`: the configuration of a client.
  - `startup`: starting a client, as a dialogue of actions and events.
  - `messaging`: the calls on a running client.
  - `archive`, `logging`, `log_backend`: the rolling log file and the `log4rs` configuration.
  - `laws`: what holds of all of this together.
- `tests/` runs the library, with `log4rs` and `multiaddr` behind it.
- `app/` exports the C functions: it turns pointers into options and performs what the library asks for.
