//! The engine of a gateway between Modbus TCP clients and a Modbus RTU bus.
//!
//! The library holds the decisions of the gateway and none of its input or
//! output: the frame codec, the exception replies, and the two state machines
//! that drive a client connection and the serial bus. A program around it
//! owns the sockets, the serial device and the threads; it performs the
//! actions that the state machines hand out and reports back what happened.
//!
//! From the wire inwards: `wire` and `checksum` hold bytes, words and the
//! checksum of a frame; `header`, `reply_length` and `exception` the codec of
//! the two framings; `task` and `exchange` one request on its way to the bus
//! and its reply on the way back; `bus` and `connection` the two state
//! machines; `bus_run` and `gateway` what holds of them over time and
//! together; `config` the settings of the serial line.

pub mod wire;
pub mod checksum;
pub mod header;
pub mod reply_length;
pub mod exception;
pub mod task;
pub mod exchange;
pub mod bus;
pub mod bus_run;
pub mod connection;
pub mod gateway;
pub mod config;
