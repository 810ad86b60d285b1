# dioxus_dnd

The verified core of a drag-and-drop toolkit for Dioxus apps.

`src/` holds the toolkit's drag logic that does not depend on floating-point
geometry or on Dioxus itself, each function with a contract proved by Verus:

- `types`, `ids`: identities, edge and effect vocabulary, fresh id sequences;
- `effects`, `collision`, `targeting`: drop-effect negotiation, the order of
  scored collision candidates, and target selection;
- `machine`, `activation`, `keyboard`: the pointer-gesture state machine,
  activation policies, and keyboard dragging;
- `lifecycle`, `world`, `settle`, `monitor`: the shared drag state with its
  exactly-once source completion, multi-window worlds, settle glides, and the
  event queue for monitors;
- `registry`, `navigation`, `reading_order`: the zone table with registration
  generations, keyboard navigation between zones, and the spatial reading
  order (rows, direction) it follows;
- `board`, `model`: applying completed drops to boards and zone models;
- `scroll_clock`: the auto-scroll clock (which input drives it, which frames
  may scroll) and the coordinator that hands the pointer from a nested
  container at its end to the next one out;
- `phrases`, `text`, `styles`: screen-reader phrases, and merging caller
  attributes and styles into a component's element.

`app/` is the host layer: pixel geometry, collision scores, coordinate keys
and row tests, edge-scroll velocities, hit testing and window placement in
floating point; the auto-scroll frame that measures and scrolls a
container; conversions from Dioxus keyboard and attribute types; the
localized phrase table; process-wide id sequences; and the delivery,
monitor and multi-window sequences that run application callbacks between
the core's steps. The Dioxus components themselves (providers, draggables,
drop zones, overlays, the auto-scroll container) are not part of this
crate.
