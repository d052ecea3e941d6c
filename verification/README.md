# repose_bevy

The decision logic of a Bevy integration for the Repose UI toolkit, written
in Verus and verified.

- `src/` is the verified library: input translation (keys, modifiers, mouse
  buttons, wheel units, IME messages), the compose decision and the
  change-tracked UI output record, cursor application, clipboard traffic,
  frame requests, the click-callback queue, font de-duplication, panel
  registration and viewport / render-target sizing. Each public function
  states its result exactly, except `take_runtime_request`, whose result
  comes from the UI runtime's thread-local flags; the laws that relate several calls (requests
  coalesce, applying the same frame twice writes nothing, a copy reaches the
  host clipboard once, a drain returns what was sent in order, each font is loaded once, ...) are
  proof functions next to the code they speak of.
- `app/` is the Bevy side: systems, plugins, resources and GPU rendering,
  which hand plain values to the library and act on its answers.
- `tests/` exercises the library on concrete values.
