//! A verified core for a small smart-home system: a length-prefixed framing
//! codec, binary command protocols, device emulators and the request-handling
//! logic of the TCP/UDP servers, with the surrounding I/O kept outside.

pub mod client;
pub mod device;
pub mod emulator;
pub mod err_house;
pub mod err_server;
pub mod protocol;
pub mod server;
pub mod server_protocol;
pub mod smart_device;
pub mod socket_protocol;
pub mod stream;
pub mod transport;
pub mod wire;
