# bevy_mod_time_travel

Snapshotting, rewinding and interpolating world state across timelines, with the core logic
verified by Verus.

## Layout

- `src/` — the verified library:
  - `duration.rs`: spans of time in nanoseconds, in the range of `core::time::Duration`;
  - `rewind_buffer.rs`: moments and the strictly time-ordered `RewindBuffer`, with the searches
    that rewinding and interpolation use, and the plans that say how an item is produced at a
    given time ("Pick B" included);
  - `timed_messages_buffer.rs`: a time-ordered queue of messages that can be replayed forward
    and backward without duplicates;
  - `schedules.rs`: tick restore and out-of-range policies, schedule parameters, and the
    per-timeline decisions of the time travel systems;
  - `interpolation.rs`, `timekeep.rs`, `continuum.rs`: timelines, continuums, and what the
    three fixed-timestep interpolation steps (returning to the fixed state, recording a new
    state, interpolating) do for given times and settings;
  - `registration.rs`: whether registering a timeline fails, and which schedules get one of its
    systems.
- `app/` — the Bevy integration: systems, schedules, the registration builder, and the Bevy
  flavours of the library's types. Interpolation factors are floats and are computed there.
- `tests/` — tests of the library.

## What is not here

The world-level interface for driving a continuum (rewinding, interpolating, rotating buffers
and accounting for changes on a whole world, `WorldTimeTravel::continuum`) is not part of this
source, so neither are the interpolation plugin and its three systems, which are built on it;
the decisions of those systems are in `src/interpolation.rs`. Reflection support is not here
either: Bevy's `Reflect` can only be derived on the types themselves. The library uses `std`
(its collections among it), so it is not `no_std`.
