# oro_link

The logic of the Oro Link board and its host tools, written in Verus and
proved against its contracts:

- `stream`, `cbor`, `protocol`, `message_ids`: the framed CBOR link protocol
  (COBS framing via the `cobs` crate, message encoding and decoding, the
  request/response identifiers).
- `rpcap`: the remote packet capture wire format.
- `config`, `vars`, `stats`, `mqtt`: configuration options, store variables,
  published statistics and MQTT topic handling (topics held in a
  `heapless::String`).
- `leds`, `blinken`, `oled`, `uart`, `power`, `power_monitor`, `sdcard`,
  `services`, `identity`: the board's device drivers and services as state
  machines and frame builders; I/O is left to the caller.
- `repl`, `wasm`, `text`: argument parsing for the host tools and small text
  helpers.

Laws that span several functions stand as public `lemma_*` proof functions.
`app/` holds the parts that do I/O or use floating point; `tests/` runs the
library with the real outside crates linked.
