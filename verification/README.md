# tui-metronome

A terminal metronome (tap tempo, swing, five click sounds, time signatures,
a pulse effect) whose decisions are verified with Verus.

- `src/` is the verified library: beat scheduling and catch-up (`metronome`,
  `timing`), tap tempo (`tap`), swing and sounds (`swing`, `sound`), the
  pulse rings' lifetimes (`pulse`), what the screen shows (`view`), the
  screen layout (`layout`, through ratatui) and the clock (`clock`).
  `laws` proves what holds across calls: every key keeps the invariant,
  a frame never leaves the next beat behind, the cycles come back round.
- `app/main.rs` is the terminal program: crossterm events, ratatui drawing,
  rodio audio and the floating-point shading of the pulse rings.
- `tests/` runs the library on concrete values.

Times are nanoseconds since the library's clock started (read from
`std::time::Instant`; only their bound is stated); volume and swing
are whole percentages.
