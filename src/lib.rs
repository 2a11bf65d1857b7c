//! Master-side driver logic for the Multi-Drop Bus (MDB) used inside vending
//! machines: the link layer's framing and reply decoding, and the protocol
//! logic of coin changers and cashless readers. Everything here works on
//! plain bytes; moving them over a 9-bit UART is left to the caller.

pub mod bytes;
pub mod cashless_device;
pub mod coin_acceptor;
pub mod link;

pub use link::{MDBResponse, MDBStatus};
