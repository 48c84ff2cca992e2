# aria2_downloader

A download manager around a managed `aria2c` process. The process is started
on the first download, the progress of every download is polled through aria2's
RPC, and the process is stopped once it has been idle for a while.

- `src/` is the library, verified with Verus. It holds the state of a
  downloader and decides everything: what to start `aria2c` with, what to ask
  it, what its answers mean, who is told what, and when to stop. `src/laws.rs`
  states what holds of it as a whole.
- `app/` is the asynchronous runtime around it: it spawns the process, talks
  to it, waits, and carries out the library's decisions.
- `tests/` runs the library on concrete values.

What the library takes on trust is declared where it is used: the channels and
signals of `tokio` in `src/channel.rs`, the error of `aria2-rs` and that of
`std::io` in `src/error.rs`, paths and durations in `src/settings.rs`.
