# huemidity

A verified core for a desktop tool that binds MIDI controllers to Philips Hue
lights. The library decodes MIDI messages, turns controller values into Hue
commands according to the user's mappings, runs the bridge connection
(discovery, link-button pairing, device refresh, rate-limited command
queues) as a state machine, and makes the decisions of the user interface.
Every function of the library carries a contract that Verus proves, except
one trusted wrapper around the standard library's Unicode lower-casing
(`text::to_lowercase`), whose contract is believed as the standard
library documents it.

Laws over whole runs of the worker are proved too. Every command carries the
address and key of the connection it was sent on, and none is sent while
not connected. Commands to one light are at least 100 ms apart, and
commands that the send timer sends to one group at least 500 ms apart
(scene recalls go out at once), provided the run is driven as the worker's
loop drives it: pairing-timer ticks at least a second apart, and each
registration answer right after the tick that asked for it. Forgetting the
bridge clears the send times, but reconnecting takes at least two pairing
ticks, so the spacing holds across a forget as well.

Layout:

- `src/text.rs` – decimal rendering, prefix and substring tests, trimming
  of Unicode white space (proved against the White_Space property), and
  Unicode lower-casing (a named result of the standard library).
- `src/strmap.rs` – string-keyed maps and sets with a map/set view.
- `src/midi.rs` – MIDI message decoding and port lookup.
- `src/hue/` – bridge resources, capabilities, request addresses and
  registration answers.
- `src/body.rs` – command bodies, their JSON members, how queued bodies merge and how a body
  changes cached state.
- `src/config.rs` – the persisted configuration.
- `src/mapping.rs` – how a controller value becomes a command.
- `src/messages.rs`, `src/worker.rs` – the bridge worker state machine.
- `src/ui.rs` – the user interface's state and decisions.
- `app/` – the program around the library: HTTP requests, MIDI ports, the
  configuration file, the tray icon, the window, the timers, and the
  floating-point colour mixing.
