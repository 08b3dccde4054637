# session_verification

The decisions behind interactive session verification in a Matrix client, verified with Verus.

A verification flow runs through a request, which turns into a short auth string (SAS) or a QR code
verification and ends done or cancelled. The library decides what each network reply and each state
change leads to: which call comes next, which listener task is spawned, which are aborted, and what
the delegate hears. It performs none of it.

- `src/controller/` holds the controller: requests, SAS, QR codes, incoming requests, and the turns
  of the listener tasks.
- `src/listener_tasks.rs` holds the handles of the listener tasks.
- `src/delegate.rs` holds the delegate and the callbacks that it receives.
- `src/states.rs`, `src/data.rs`, `src/steps.rs`, `src/error.rs`, `src/user_id.rs` hold the values
  that go in and come out.
- `src/sharing.rs` shares what the controller keeps and hands out at the same time.
- `src/model.rs` describes the controller as a transition system: its state and its moves.
- `src/laws.rs` proves what holds of the controller as a whole: no listener escapes or outlives it,
  each is held or aborted once, at most one of each kind runs, someone always listens, the end of a
  flow is reported once, a verification that we started is not accepted by us, an ongoing flow is
  not replaced.
- `app/` connects the library to the Matrix SDK, to the task runtime and to foreign callers.

Two things are taken on trust, each stated where it stands: what `ruma::UserId::parse` returns
depends on the text alone and keeps a valid identifier as it is, and `Arc::clone` gives another
pointer to the same value.
