//! An MQTT 5 broker's protocol core: the wire codec, the packets, and the
//! decisions that a connection and a session take.
pub mod bytes_io;
pub mod codec;
pub mod packets;
pub mod protocol;
pub mod text;
pub mod connection;
pub mod handlers;
pub mod broker_state;
pub mod session;
