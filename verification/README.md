# esp8266

A driver for an ESP8266 network adapter on a serial line, with its decisions verified by Verus.

- `src/` is the library. `modem` configures the adapter and sorts what it sends; `scan` recognises
  its announcement and its replies. `controller` and `operations` turn the calls of a user into
  commands, and responses into results. `driver` splits a driver into these two sides. `text`
  holds lines in the fixed-capacity strings of the `heapless` crate. `modem_laws` and
  `operation_laws` state what holds of every run.
- `app/` does what the library decides: it owns the serial line, the pins and the channels. The
  parser of the adapter's messages, the text of its commands and the pool of its sockets are
  plugged in there.
- `tests/` runs the library.

What is trusted stands in `src/text.rs`: the five functions that call `heapless`.
