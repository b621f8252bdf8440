//! Core QUIC types: variable-length integers, the frames of the QUIC
//! transport protocol with their wire encoding, and the event data model
//! through which a QUIC endpoint reports what happens on its connections.
pub mod application;
pub mod codec;
pub mod connection;
pub mod endpoint;
pub mod event;
pub mod frame;
pub mod packet;
pub mod stateless_reset;
pub mod stream;
pub mod time;
pub mod varint;
