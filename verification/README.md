# terminal-cell

A terminal cell owns one pseudo-terminal and serves it on two Unix sockets. The
control socket carries tagged requests and replies, and Signal queries as
archives behind their length. The data socket carries an attach handshake and raw
bytes behind it.

The library in `src/` is written in Verus. It holds what both ends of the sockets
decide, and does no I/O: a reader works on bytes that were received, a writer
appends bytes to send, and a connection is a row of steps. Each step names the
work that is due and is resumed with the result of that work.

- `wire`, `text`, `failure`, `cursor`: numbers, text, failures, received bytes
- `request`, `reply`: the two directions of the wire, with `request_laws` and
  `reply_laws`
- `terminal`, `signal`, `worker`: what the terminal and the Signal contract speak of
- `prompt`: whether a transcript stands at a prompt
- `control_state`, `control_steps`, `control`: the control plane, with
  `control_laws`, `gate_laws` and `stream_laws`
- `data`: the data plane, with `data_laws`
- `client`: the verbs of a client, with `client_laws`
- `engine`: what the daemon launches, announces and reports

Contracts speak of views and of the spec functions beside each type. The laws are
public proof functions.

What is trusted: `String::from_utf8` and the message of a failed `usize::try_from`
in `text`, the regular expressions of the `regex` crate in `prompt`, and in
`client` that a path is carried unread and that its clone is the same path.

`app/` puts the library on sockets, threads and actors. `tests/` runs it on a
terminal that is held in memory.
