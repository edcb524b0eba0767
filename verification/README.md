# aiop

A local operator for model reviews. A daemon keeps projects, operations, sessions and live
conversations in a SQLite file; a gateway offers them as MCP tools; a target runs one direct child
per operation. At most one writer works on a session at a time, nothing is told to a caller before
it is durable, and whatever an interrupted daemon left behind is classified, never guessed.

`src/` is the verified library. It decides; it performs no input or output.

- `contract`: identities, requests, answers and errors.
- `state`: the durable tables, the changes that each request makes to them, and what every change
  keeps (`laws`, `conversation_laws`).
- `control`: which request does what, and the steps of starts, workers, conversations and recorders.
- `target`: command lines, output framing, the interpretation of both event streams, and the steps
  of a review and of a conversation.
- `gateway`: the tools and the requests that they make.
- `fixture`: a deterministic target.

A part that waits for the outside is a step machine: a function from a step and the event that
answered it to the next step. `app/` performs the steps: it owns the sockets, the SQLite file, the
child processes and the threads, and is one executable that runs as the daemon, the gateway or the
deterministic target by the name it is started under.

`tests/` runs the library; `tests/operator.rs` runs all of it together, with the deterministic
target playing in place.
