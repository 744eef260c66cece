# home_iot

The verified core of a LoRa sensor node's firmware, written in Verus.

- `src/` is the library, every item verified:
  - `token`: splitting a command line on spaces, trimming its NUL padding,
    reading a decimal `u8` argument, rendering decimal numbers;
  - `command`: the console's command grammar (`Command::try_from`), what the
    command task does for each command, and the law that every documented
    command, typed as documented, reads back as itself;
  - `uart`: the line editor that collects typed bytes, echoes them and hands
    a line over on Enter;
  - `event`: what the event bus does for each event;
  - `rtc`: the clock's date and time, the edits the clock commands make
    (a second added or taken away carries through the calendar), and its
    timestamp as the PCF8523 driver computes it;
  - `env_reading`: the reading builder and the 11-byte little-endian LoRa
    payload;
  - `gpio`: the status LEDs and the levels that the toggle commands leave;
  - `error`: failure reports.
- `app/` is the Embassy firmware around it: the tasks, the buses, the
  drivers, and the channels between the tasks.
- `tests/` exercises the library on concrete values.
