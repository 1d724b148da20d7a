# termrain

A terminal weather forecast and rain-radar client.

- `src/` is the library, verified with Verus: map tile styles and their
  URLs, weather code tables, radar frame and tile selection, time
  conversion, the request bookkeeping that keeps only the latest radar
  answer, keyboard handling and panel layout arithmetic. Public proof
  functions named `law_*` state the properties that hold across calls.
- `app/` is the program around it: configuration files, HTTP requests,
  image compositing and terminal drawing. It hands plain values to the
  library and carries out the effects that the library decides on.
- `tests/` exercises the library on concrete values.

Limits of this build:

- Forecasts come from Open-Meteo everywhere, Japan included: the Japan
  Meteorological Agency provider is not part of it (`prefers_jma` states
  the choice, but the program has only the Open-Meteo provider).
- The OpenFreeMap style serves vector tiles, and no vector tile renderer is
  included, so with that style the radar is drawn without a background map;
  only the tile URL template (`fill_tile_template`) is kept.
