# tempmon

A terminal temperature monitor. The library (`src/`) holds everything the
monitor decides, verified with Verus; `app/` reads the sensors, draws the
screen and runs the event loop.

- `app_state` — sensors, peaks, selection and history; `update`, selection
  moves, `has_critical`, `hottest`, and each reading's status.
- `input_handler` — what a key press does to the state.
- `event_loop` — how long to wait for input and when to read the sensors.
- `ui` — what each part of the screen shows: row texts, bars, colours,
  header, chart bounds and labels, gauge, footer.
- `text` — byte-bounded label cutting, padding and decimal notation.
- `laws` — properties that span these functions, proved.

Temperatures are whole thousandths of a degree Celsius; `app/` rounds the
sensors' floating-point readings to them.
