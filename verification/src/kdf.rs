//! Key derivation for the encrypted leg of the middle-proxy handshake.
//!
//! Each direction gets its own AES-256 key and IV, derived from the two
//! nonces, the negotiated 4-tuple, the role tag and the proxy secret.  The
//! input buffer layout is the transport's own and is verified; the digests
//! come from outside routines and keep their names.

use vstd::prelude::*;

use crate::bytes_util::{vec_copy_range, vec_push_all};
use crate::le::{push_u16_le, push_u32_le, u16_le, u32_le};

verus! {

/// The MD5 digest of a byte sequence: 16 bytes, a function of the bytes
/// alone.
pub uninterp spec fn md5_of(data: Seq<u8>) -> Seq<u8>;

/// The SHA-1 digest of a byte sequence: 20 bytes, a function of the bytes
/// alone.
pub uninterp spec fn sha1_of(data: Seq<u8>) -> Seq<u8>;

/// Relies on md5::Md5 through digest::Digest::digest: the 16-byte MD5
/// digest of the buffer, a function of the bytes alone.
#[verifier::external_body]
fn md5_digest(data: &[u8]) -> (r: Vec<u8>)
    ensures
        r@ == md5_of(data@),
        r@.len() == 16,
{
    let d = <md5::Md5 as md5::Digest>::digest(data);
    d.to_vec()
}

/// Relies on sha1::Sha1 through digest::Digest::digest: the 20-byte SHA-1
/// digest of the buffer, a function of the bytes alone.
#[verifier::external_body]
fn sha1_digest(data: &[u8]) -> (r: Vec<u8>)
    ensures
        r@ == sha1_of(data@),
        r@.len() == 20,
{
    let d = <sha1::Sha1 as sha1::Digest>::digest(data);
    d.to_vec()
}

/// Which side of the connection a derived key serves.
#[derive(Clone, Copy, Debug, PartialEq, Eq, Structural)]
pub enum KdfRole {
    /// Bytes we send to the middle proxy.
    Client,
    /// Bytes the middle proxy sends to us.
    Server,
}

/// The six role-tag bytes: the ASCII of `CLIENT` or `SERVER`.
pub open spec fn role_bytes(role: KdfRole) -> Seq<u8> {
    match role {
        KdfRole::Client => seq![0x43u8, 0x4c, 0x49, 0x45, 0x4e, 0x54],
        KdfRole::Server => seq![0x53u8, 0x45, 0x52, 0x56, 0x45, 0x52],
    }
}

/// The key-derivation input buffer: both nonces, the timestamp, the
/// 4-tuple in little-endian, the role tag, the proxy secret, and the
/// nonces once more.
pub open spec fn kdf_input(
    server_nonce: Seq<u8>,
    client_nonce: Seq<u8>,
    crypto_ts: u32,
    server_ip: u32,
    client_port: u16,
    role: KdfRole,
    client_ip: u32,
    server_port: u16,
    secret: Seq<u8>,
) -> Seq<u8> {
    server_nonce + client_nonce + u32_le(crypto_ts) + u32_le(server_ip) + u16_le(client_port)
        + role_bytes(role) + u32_le(client_ip) + u16_le(server_port) + secret + server_nonce
        + client_nonce
}

/// The 32-byte AES key derived from a key-derivation buffer: the first 12
/// bytes of the MD5 of the buffer less its first byte, then the SHA-1 of
/// the whole buffer.
pub open spec fn kdf_key_of(buf: Seq<u8>) -> Seq<u8> {
    md5_of(buf.skip(1)).take(12) + sha1_of(buf)
}

/// The 16-byte IV derived from a key-derivation buffer: the MD5 of the
/// buffer less its first two bytes.
pub open spec fn kdf_iv_of(buf: Seq<u8>) -> Seq<u8> {
    md5_of(buf.skip(2))
}

/// Derive one direction's `(key, iv)` pair, per the middle-proxy key
/// schedule, from the handshake parameters.
pub fn derive_middleproxy_keys(
    server_nonce: &Vec<u8>,
    client_nonce: &Vec<u8>,
    crypto_ts: u32,
    server_ip: u32,
    client_port: u16,
    role: KdfRole,
    client_ip: u32,
    server_port: u16,
    secret: &Vec<u8>,
) -> (r: (Vec<u8>, Vec<u8>))
    requires
        server_nonce@.len() == 16,
        client_nonce@.len() == 16,
        secret@.len() + 128 <= usize::MAX,
    ensures
        ({
            let buf = kdf_input(
                server_nonce@,
                client_nonce@,
                crypto_ts,
                server_ip,
                client_port,
                role,
                client_ip,
                server_port,
                secret@,
            );
            r.0@ == kdf_key_of(buf) && r.0@.len() == 32 && r.1@ == kdf_iv_of(buf) && r.1@.len()
                == 16
        }),
{
    let mut buf: Vec<u8> = Vec::new();
    vec_push_all(&mut buf, server_nonce.as_slice());
    vec_push_all(&mut buf, client_nonce.as_slice());
    push_u32_le(&mut buf, crypto_ts);
    push_u32_le(&mut buf, server_ip);
    push_u16_le(&mut buf, client_port);
    match role {
        KdfRole::Client => {
            buf.push(0x43);
            buf.push(0x4c);
            buf.push(0x49);
            buf.push(0x45);
            buf.push(0x4e);
            buf.push(0x54);
        },
        KdfRole::Server => {
            buf.push(0x53);
            buf.push(0x45);
            buf.push(0x52);
            buf.push(0x56);
            buf.push(0x45);
            buf.push(0x52);
        },
    }
    push_u32_le(&mut buf, client_ip);
    push_u16_le(&mut buf, server_port);
    vec_push_all(&mut buf, secret.as_slice());
    vec_push_all(&mut buf, server_nonce.as_slice());
    vec_push_all(&mut buf, client_nonce.as_slice());
    let ghost spec_buf = kdf_input(
        server_nonce@,
        client_nonce@,
        crypto_ts,
        server_ip,
        client_port,
        role,
        client_ip,
        server_port,
        secret@,
    );
    assert(buf@ =~= spec_buf);
    let tail1 = vec_copy_range(&buf, 1, buf.len());
    assert(tail1@ =~= spec_buf.skip(1));
    let tail2 = vec_copy_range(&buf, 2, buf.len());
    assert(tail2@ =~= spec_buf.skip(2));
    let h_md5 = md5_digest(tail1.as_slice());
    let h_sha1 = sha1_digest(buf.as_slice());
    let mut key = vec_copy_range(&h_md5, 0, 12);
    assert(key@ =~= md5_of(spec_buf.skip(1)).take(12));
    vec_push_all(&mut key, h_sha1.as_slice());
    assert(key@ =~= kdf_key_of(spec_buf));
    let iv = md5_digest(tail2.as_slice());
    (key, iv)
}

} // verus!
