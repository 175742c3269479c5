//! Decoder for DEEP market-data messages carried in IEX-TP packets.
pub mod bytes;
pub mod header;
pub mod codes;
pub mod message;
pub mod segment;
pub mod tick;
pub mod packet;
pub mod dates;
pub mod capture;
