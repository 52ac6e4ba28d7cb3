# poh_service

The proof-of-history (PoH) service records the passing of "ticks", a measure of time in the PoH
stream. It runs on a thread of its own and does one of three things, as the cluster is configured:

* hash without pause, record what it is asked to record as soon as it notices, and tick when the
  hash chain calls for it;
* sleep for the length of a tick, and tick, until it is told to exit ("low power mode");
* the same for a given number of ticks, whatever it is told.

`src/` is a Verus library. Each of the three is a state machine there: it asks for an action and is
told by an event how the action went. The contracts state each step exactly, for
whatever the clock showed, and the laws in
`tick_laws.rs`, `sleepy_laws.rs`, `poh.rs` and `service.rs` state what holds of every run: no
request is lost or overtaken, the two locks are never held together, a tick is made for each time
that the chain calls for one, the exit flag is obeyed (or ignored) where it should be, and the
counters mean what they say.

`app/` is ordinary Rust: the thread, the locks, the channels and the clocks around the library.
