# shack

The shared vocabulary of a home-automation system, verified with Verus.

- `src/` is the verified library: the routing keys of the message exchanges
  (`amqp/`: input events, Tasmota MQTT messages, log records), their text
  forms and decoding, the exchange parameters and the steps of passing
  deliveries on, the request table of the TCP client (`tcp.rs`), the
  configuration and event types, and the text helpers the keys are built
  from (`text.rs`). Each key type states its text form and what decoding a
  text gives; the round-trip properties are proved next to them.
- `app/` holds what Verus does not see: the AMQP clients on `lapin` and
  `tokio`, the serde forms of the library's types, the events that carry
  timestamps and floats, and the floating-point value mappings.
- `tests/` runs the library on concrete keys and tables.
