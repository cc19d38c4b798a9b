# illumos_events

Event plumbing for a desktop application on illumos, with its decisions verified in Verus.

- `timer`, `timer_heap`, `timer_queue`: the timer thread. A binary heap keeps the timers in firing
  order; `TimerLoop` tells the thread what to fire and how long to wait.
- `ping`, `channel`: waking an event loop through a pair of sockets, and taking messages out of a
  queue when it is woken.
- `dispatcher`: the threads of a dispatcher and the fate of work that could not be handed over.
- `port`, `watch_entry`, `watch_table`, `opening`, `command`: file watches on an event port.
- `reports`: the `notify` events and errors that a watcher hands out.
- `paths`, `fault`: what is read from paths and operating-system errors.
- `timer_laws`, `channel_laws`, `watch_laws`, `command_laws`: what holds over whole runs.

The library reads no clock and touches no socket, channel or port. `app/` does, and does what the
library says. Time is in nanoseconds on the caller's clock.

The declarations that Verus takes on trust stand in `paths`, `fault` and `reports`; each names the
function it speaks of.
