# tiled_bevy_isometric

An isometric tile-map prototype built on Bevy and Tiled, split in two:

- `src/` is the verified library (Verus):
  - `subtile.rs`: the subtile collision grid (each tile split 2x2), built
    from one sample per subtile plus two hand-authored overrides, with
    lookups, blocked counts, subtile centers and the debug overlay's
    neighbourhood listing;
  - `character.rs`: movement decisions (key axes, refusing a step into a
    blocked subtile, facing the direction that actually moved) and the
    sprite animation state machine around Bevy's frame timers;
  - `facing.rs`: the eight compass facings, their sheet rows and how an
    input angle sector picks one;
  - `debug.rs`: frame schedules of the headless probes and screenshot run,
    and the small decisions of the debug tooling.
- `app/` is the Bevy program around it: windowing, assets, the Tiled map,
  floating-point projection and collision polygons, drawing and logging.

`tests/` exercises the library through its public API.
