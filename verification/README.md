# mqtt_broker

An MQTT 5 broker whose protocol core is verified with Verus.

- `src/` is the verified library: the wire codec (variable byte integers,
  UTF-8 strings, binary data, properties), the packets (CONNECT, CONNACK,
  PUBLISH, SUBSCRIBE, PINGREQ, PINGRESP, DISCONNECT), framing packets out of
  a connection's buffer, the answer to a CONNECT packet, and the decisions a
  session and the broker take. Byte buffers and cursors of the `bytes` crate
  are reached through `src/bytes_io.rs`, whose items state what the library
  assumes of them.
- `app/` is the program around it: the TCP listener, the tokio tasks and
  channels, and the shared session registry.
- `tests/` runs the library on concrete packets.
