//! A driver for an ESP8266 network adapter that is attached to a serial line.
//!
//! The driver has two sides. The modem configures the adapter, writes commands to it, and sorts what
//! it sends into responses and notifications. The controller turns the calls of its user into
//! commands and the responses into results. This crate holds what both sides decide; the serial
//! line, the pins and the channels between the two sides belong to its caller.
pub mod controller;
pub mod driver;
pub mod error;
pub mod modem;
pub mod modem_laws;
pub mod net;
pub mod operation_laws;
pub mod operations;
pub mod protocol;
pub mod scan;
pub mod text;

pub use controller::Esp8266Controller;
pub use driver::Esp8266Driver;
pub use error::AdapterError;
pub use modem::Esp8266Modem;
pub use protocol::BUFFER_LEN;
