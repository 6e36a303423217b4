//! Core of a minimal BOOTP/DHCP server.
//!
//! The crate decodes a fixed-layout request packet, reads its options
//! region, decides from the DHCP message type how to answer, and builds the
//! response packet. Everything here is a pure transformation over byte
//! buffers and plain values; sockets, files and the command line live
//! outside.
//!
//! - [`packet`] and [`bootpacket`]: the DHCP and BOOTP records and their
//!   wire forms.
//! - [`options`] and [`scan`]: writing and reading the options region.
//! - [`codes`]: option codes, opcodes and message types.
//! - [`config`]: the values a client is answered with.
//! - [`server`]: classifying a request and building the response.
//! - [`error`]: the reasons for which a request is not answered.
//! - [`mac`]: what is taken on trust about hardware addresses.
//! - [`wire`]: byte order and byte copying.

pub mod bootpacket;
pub mod codes;
pub mod config;
pub mod error;
pub mod mac;
pub mod options;
pub mod packet;
pub mod scan;
pub mod server;
pub mod wire;
