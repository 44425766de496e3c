# suri_sprint

Suri Sprint is a 2D platformer about a cat. This crate holds its game rules
as a library verified with Verus, and the program that runs the game around
it.

- `src/` — the verified library: switch logic, the level geometry grid,
  input mapping, menus, the game loop's modes, pausing, slow motion and level
  warps, collision rules and contact handling, the movement and animation
  state machines of characters and NPCs, sprite animation, buttons, pickups,
  portals and audio levels. Each public function states its result in its
  contract; the `law_*` proof functions state properties that span calls.
  Times are whole milliseconds (microseconds where a frame adds a fraction of
  one) and fractions are kept in hundredths or
  thousandths, so that everything the rules decide is integer arithmetic.
- `app/` — the game program: the window and event loop (ggez), the physics
  engine (Box2D through wrapped2d), the entity world (specs), configuration
  and level files (serde and RON), sound, drawing, and the floating-point
  motion that only the physics engine's values decide.
- `tests/` — tests of the library on concrete values.
