//! Middle-end RPC transport core for an MTProto proxy.
//!
//! The library covers the logic of the transport: the RPC frame codec with
//! its CRC, the block-chained CBC encryption unit, the nonce/handshake state
//! machine with its key derivation, the proxy-request encoder, the logical
//! connection registry, the writer pool with round-robin dispatch, and the
//! streaming reader that demultiplexes responses.  Sockets, clocks and files
//! stay with the caller: every function here goes from plain values to plain
//! values, and its behaviour is stated in its contract.

pub mod addr;
pub mod bytes_util;
pub mod cbc;
pub mod consts;
pub mod crc;
pub mod errors;
pub mod frame;
pub mod handshake;
pub mod hot_reload;
pub mod kdf;
pub mod le;
pub mod pool;
pub mod proxy_req;
pub mod reader;
pub mod registry;
pub mod secret;
pub mod tls_front;
pub mod writer;
