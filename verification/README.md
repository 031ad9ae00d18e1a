# appservice_delta

A bridge between a Matrix homeserver and an e-mail core: chats by e-mail appear as
rooms, and what is said in those rooms goes out by e-mail.

- `src/` is the bridge itself, verified with Verus. It waits for nothing and touches
  nothing: every piece of work is a task that says which request has to be performed
  next and is resumed with the reply. `protocol.rs` lists the requests and the replies
  that each of them may get, `task.rs` the tasks, `run.rs` what it means to run one,
  and `laws/` what holds of whole runs. `outside.rs` gathers what is taken on trust of
  other crates.
- `tests/` runs the tasks against a scripted world.
- `app/` is the program around the bridge: it performs the requests and feeds events in.
