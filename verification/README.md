# pcsc_rs

The logic of a PC status client, verified with Verus: the client gathers the
machine's figures, renders its uptime, reads the GPU tool's CSV output, and
answers a status server.

- `src/decimal.rs`: decimal text of a `u64` and reading it back, with the
  proof that reading a rendered number gives that number.
- `src/unix_to_date.rs`: uptime as `"<d> days <h> hours <m> minutes <s> seconds"`.
- `src/gpu.rs`: the first card's figures from `nvidia-smi` CSV output.
- `src/status.rs`: the figures of a report and its text fields.
- `src/update.rs`: the step after a self-update, per `PCSC_UPDATED`.
- `src/session.rs`: how the websocket session answers the server.
- `app/`: the program around it: reading the machine with `sysinfo`, running
  `nvidia-smi`, the websocket and socket.io clients, self-update, JSON.
