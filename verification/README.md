# rust-roveri

The decisions of a drone that relays packets through a source-routed network, verified with Verus.

- `src/` is the verified library. `RustRoveri` holds what a drone knows: its name, its neighbors,
  its drop rate and the floods it has seen. `step` takes a command or a packet and gives back what
  to do about it: packets to hand to neighbors and events to report, in order.
  - `model.rs` says what a drone owes for each packet and command; the contracts in `drone.rs` and
    `run.rs` speak of it.
  - `laws.rs` proves what follows: packets arrive as they were sent, Nacks find their way back to
    the source, a flood is passed on once, packets go to neighbors only, and more.
  - `rate.rs` orders single-precision numbers by their bit patterns, and proves that this is the
    order of the numbers.
- `app/` puts a drone on its channels: it listens, draws the random numbers, carries the actions
  out and logs. It implements the `Drone` trait of the network protocol's crate.
- `tests/` runs drones and small networks.
