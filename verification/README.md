# elite_presence

Shows what the player does in Elite Dangerous as a Discord activity.

- `src/` is the library, verified with Verus: the game session followed
  through the journal's events (`state`, `location`, `loadout`, `session`),
  the journal watcher's decisions (`journal`), the presence's decisions and
  the activity it shows (`rpc`, `presence`), the mapping of journal events to
  status updates (`watchdog`, `state_manager`, `elite`), the Discord RPC's
  frames, payloads, handshake and errors (`discord`, `pipe`), and the choice of
  the latest journal and of Discord's pipe (`utils`).
- `app/` is the program around it: reading the journals and the environment,
  the pipe, JSON, and the async loops.
- `tests/` runs the library on concrete values.
