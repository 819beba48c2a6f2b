//! Protocol constants of the middle-end RPC transport.
//!
//! All integers on the wire are little-endian.  The opcodes are the fixed
//! 32-bit tags that open every RPC payload.

use vstd::prelude::*;

verus! {

/// Opcode of a nonce packet (both directions of the plaintext exchange).
pub const RPC_NONCE: u32 = 0x55CF8FAA;
/// Schema tag selecting AES-CBC transport encryption.
pub const RPC_CRYPTO_AES: u32 = 0x89E5E051;
/// Opcode of the encrypted handshake packet.
pub const RPC_HANDSHAKE: u32 = 0xF5EE8276;
/// Opcode of a handshake rejection; the body carries a signed error code.
pub const RPC_HANDSHAKE_ERROR: u32 = 0xBC791FAD;
/// Opcode of a client-to-middle proxy request.
pub const RPC_PROXY_REQ: u32 = 0x36CEF1EE;
/// Opcode of a middle-to-client answer.
pub const RPC_PROXY_ANS: u32 = 0x4403DA0D;
/// Opcode of a delivery confirmation.
pub const RPC_SIMPLE_ACK: u32 = 0x9453F31B;
/// Opcode closing a logical connection (extended form).
pub const RPC_CLOSE_EXT: u32 = 0x5EB634A2;
/// Opcode closing a logical connection.
pub const RPC_CLOSE_CONN: u32 = 0x1FCF425D;
/// Opcode of a keepalive probe from the peer.
pub const RPC_PING: u32 = 0x86586839;
/// Opcode of the answer to a keepalive probe.
pub const RPC_PONG: u32 = 0x8430EAA7;
/// TL tag that introduces the advertising tag inside the extras section.
pub const TL_PROXY_TAG: u32 = 0xAE26DEAD;

/// Flag: the extras section carries an advertising tag.
pub const RPC_FLAG_HAS_AD_TAG: u32 = 0x8;
/// Flag: fixed magic always set on proxy requests.
pub const RPC_FLAG_MAGIC: u32 = 0x1000;
/// Flag: extended extras mode.
pub const RPC_FLAG_EXTMODE2: u32 = 0x20000;
/// Flag: the client spoke the abridged transport.
pub const RPC_FLAG_ABRIDGED: u32 = 0x40000000;
/// Flag: the client spoke the intermediate transport.
pub const RPC_FLAG_INTERMEDIATE: u32 = 0x20000000;
/// Flag: the client transport pads its packets (secure mode).
pub const RPC_FLAG_PAD: u32 = 0x8000000;

/// Sequence number reserved for the plaintext nonce frame.
pub const SEQ_NONCE: i32 = -2;
/// Sequence number reserved for the encrypted handshake frame.
pub const SEQ_HANDSHAKE: i32 = -1;

/// Smallest legal frame: length word, sequence word and CRC with empty payload.
pub const FRAME_MIN_LEN: u32 = 12;
/// Largest legal frame length.
pub const FRAME_MAX_LEN: u32 = 0x1000000;
/// A bare length word of this value is a noop padding word and is skipped.
pub const FRAME_NOOP_LEN: u32 = 4;

/// Capacity of each per-session response queue.
pub const RESPONSE_QUEUE_CAPACITY: usize = 256;

/// A cached proxy secret younger than this many seconds may be reused.
pub const SECRET_CACHE_MAX_AGE_SECS: u64 = 86400;
/// Shortest usable proxy secret.
pub const SECRET_MIN_LEN: usize = 32;

} // verus!
